//! The decisions of one procedure call over plain HTTP: the input it takes,
//! the call it makes, and the answer it gives.
use vstd::prelude::*;
use vstd::utf8::encode_utf8;
use crate::json::{
    json_bytes_accepted, json_optional_value, optional_value_from_slice, optional_value_from_str,
};
use crate::query::{query_input, query_input_of};
use crate::reply::{Reply, Status};
use crate::routing::ProcedureKind;

verus! {

/// `rspc::internal::jsonrpc::Response`, carried through as an opaque value.
#[verifier::external_type_specification]
#[verifier::external_body]
pub struct ExRpcResponse(rspc::internal::jsonrpc::Response);

/// The JSON text that `serde_json::to_vec` writes for a response of the
/// router.
pub uninterp spec fn response_json(response: rspc::internal::jsonrpc::Response) -> Seq<u8>;

/// `serde_json::to_vec` on a response of the router. It always succeeds: it
/// writes into a `Vec`, which cannot fail, and a response holds only strings,
/// integers and JSON values (whose maps have string keys and whose numbers are
/// finite), none of which serde_json refuses to serialize.
#[verifier::external_body]
fn response_to_vec(response: &rspc::internal::jsonrpc::Response) -> (r: Result<
    Vec<u8>,
    serde_json::Error,
>)
    ensures
        r is Ok,
        r->Ok_0@ == response_json(*response),
{
    serde_json::to_vec(response)
}

/// The view of an optional string slice.
pub open spec fn opt_view(s: Option<&str>) -> Option<Seq<char>> {
    match s {
        Some(t) => Some(t@),
        None => None,
    }
}

/// The id of a JSON-RPC request, as rspc's `RequestId` has it.
pub enum CallId {
    Null,
    Number(u32),
    Text(String),
}

/// One JSON-RPC request to the router: the protocol version it names (if
/// any), its id, the procedure's kind, its name and its input.
pub struct RpcCall {
    pub jsonrpc: Option<String>,
    pub id: CallId,
    pub kind: ProcedureKind,
    pub path: String,
    pub input: Option<serde_json::Value>,
}

/// What a parse of the input leads to: its value, or a 404 with the body `[]`
/// when the input is not JSON.
pub fn input_from_parse(parsed: Result<Option<serde_json::Value>, serde_json::Error>) -> (r: Result<
    Option<serde_json::Value>,
    Reply,
>)
    ensures
        match parsed {
            Ok(v) => r matches Ok(w) && w == v,
            Err(_) => r matches Err(reply) && reply.is_empty_batch_answer(Status::NotFound),
        },
{
    match parsed {
        Ok(v) => Ok(v),
        Err(_) => Err(Reply::empty_batch(Status::NotFound)),
    }
}

/// The input of a query: no input when the query string has no `input`
/// parameter, else that parameter parsed as JSON; a 404 with the body `[]`
/// when it is not JSON.
pub fn query_procedure_input(query: Option<&str>) -> (r: Result<Option<serde_json::Value>, Reply>)
    ensures
        match query_input_of(opt_view(query)) {
            None => r matches Ok(v) && v is None,
            Some(text) => {
                &&& r is Ok <==> json_bytes_accepted(encode_utf8(text))
                &&& r matches Ok(v) ==> v == json_optional_value(encode_utf8(text))
                &&& r matches Err(reply) ==> reply.is_empty_batch_answer(Status::NotFound)
            },
        },
{
    match query_input(query) {
        None => Ok(None),
        Some(text) => input_from_parse(optional_value_from_str(text.as_str())),
    }
}

/// The input of a mutation: no input when the body is empty, else the body
/// parsed as JSON; a 404 with the body `[]` when it is not JSON.
pub fn mutation_procedure_input(body: &[u8]) -> (r: Result<Option<serde_json::Value>, Reply>)
    ensures
        body@.len() == 0 ==> (r matches Ok(v) && v is None),
        body@.len() != 0 ==> {
            &&& r is Ok <==> json_bytes_accepted(body@)
            &&& r matches Ok(v) ==> v == json_optional_value(body@)
            &&& r matches Err(reply) ==> reply.is_empty_batch_answer(Status::NotFound)
        },
{
    if body.len() == 0 {
        Ok(None)
    } else {
        input_from_parse(optional_value_from_slice(body))
    }
}

/// Prepares the call once the context has been built: a 500 with the body
/// `[]` when building the context failed; otherwise the request (with no
/// protocol version and a null id), with the context. A subscription never
/// gets here: plain HTTP does not carry one.
pub fn prepare_call<C, E>(
    kind: ProcedureKind,
    path: String,
    input: Option<serde_json::Value>,
    context: Result<C, E>,
) -> (r: Result<(C, RpcCall), Reply>)
    requires
        kind != ProcedureKind::Subscription,
    ensures
        context is Err ==> (r matches Err(reply) && reply.is_empty_batch_answer(
            Status::InternalServerError,
        )),
        context is Ok ==> (r matches Ok((c, call)) && c == context->Ok_0 && call.jsonrpc is None
            && call.id is Null && call.kind == kind && call.path@ == path@ && call.input
            == input),
{
    match context {
        Ok(ctx) => Ok((ctx, RpcCall { jsonrpc: None, id: CallId::Null, kind, path, input })),
        Err(_) => Err(Reply::empty_batch(Status::InternalServerError)),
    }
}

/// The answer for a serialized response: 200 with the bytes as a JSON body,
/// or a 500 with the body `[]` when serializing failed.
pub fn reply_from_serialized(serialized: Result<Vec<u8>, serde_json::Error>) -> (r: Reply)
    ensures
        match serialized {
            Ok(bytes) => r.status == Status::Success && r.json && r.body@ == bytes@,
            Err(_) => r.is_empty_batch_answer(Status::InternalServerError),
        },
{
    match serialized {
        Ok(bytes) => Reply::success(bytes),
        Err(_) => Reply::empty_batch(Status::InternalServerError),
    }
}

/// The answer for the response the router gave: 200, labelled as JSON, with
/// the response's JSON serialization as the body.
pub fn reply_for_response(response: rspc::internal::jsonrpc::Response) -> (r: Reply)
    ensures
        r.status == Status::Success,
        r.json,
        r.body@ == response_json(response),
{
    reply_from_serialized(response_to_vec(&response))
}

} // verus!

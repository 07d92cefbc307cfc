use rspc::internal::jsonrpc::{RequestId, Response, ResponseInner};
use rspc_actix::http::{
    input_from_parse, mutation_procedure_input, CallId, prepare_call, query_procedure_input,
    reply_for_response, reply_from_serialized,
};
use rspc_actix::reply::Status;
use rspc_actix::routing::ProcedureKind;
use serde_json::Value;

#[test]
fn query_without_input_has_no_input() {
    assert_eq!(query_procedure_input(None).ok().unwrap(), None);
    assert_eq!(query_procedure_input(Some("x=1")).ok().unwrap(), None);
}

#[test]
fn query_input_is_parsed_as_json() {
    let v = query_procedure_input(Some("input=%22hi%22")).ok().unwrap();
    assert_eq!(v, Some(Value::String("hi".to_string())));
}

#[test]
fn query_input_null_is_no_input() {
    assert_eq!(query_procedure_input(Some("input=null")).ok().unwrap(), None);
}

#[test]
fn query_input_that_is_not_json_is_not_found() {
    let r = query_procedure_input(Some("input=nope")).err().unwrap();
    assert_eq!(r.status, Status::NotFound);
    assert!(r.json);
    assert_eq!(r.body, b"[]".to_vec());
}

#[test]
fn empty_mutation_body_has_no_input() {
    assert_eq!(mutation_procedure_input(b"").ok().unwrap(), None);
}

#[test]
fn mutation_body_is_parsed_as_json() {
    let v = mutation_procedure_input(b" 42 ").ok().unwrap();
    assert_eq!(v, Some(Value::from(42)));
    assert_eq!(mutation_procedure_input(b"null").ok().unwrap(), None);
}

#[test]
fn mutation_body_that_is_not_json_is_not_found() {
    let r = mutation_procedure_input(b"{").err().unwrap();
    assert_eq!(r.status, Status::NotFound);
    assert!(r.json);
    assert_eq!(r.body, b"[]".to_vec());
}

#[test]
fn input_from_parse_passes_value_through() {
    let v = input_from_parse(Ok(Some(Value::Bool(true)))).ok().unwrap();
    assert_eq!(v, Some(Value::Bool(true)));
    let err = serde_json::from_str::<Value>("{").unwrap_err();
    let r = input_from_parse(Err(err)).err().unwrap();
    assert_eq!(r.status, Status::NotFound);
}

#[test]
fn failed_context_is_a_server_error() {
    let r = prepare_call::<(), &str>(ProcedureKind::Query, "echo".to_string(), None, Err("no"))
        .err()
        .unwrap();
    assert_eq!(r.status, Status::InternalServerError);
    assert!(r.json);
    assert_eq!(r.body, b"[]".to_vec());
}

#[test]
fn prepared_query_keeps_null_id_and_no_version() {
    let (_, call) = prepare_call::<(), ()>(ProcedureKind::Query, "version".to_string(), None, Ok(()))
        .ok()
        .unwrap();
    assert_eq!(call.kind, ProcedureKind::Query);
    assert_eq!(call.path, "version");
    assert_eq!(call.input, None);
    assert!(call.jsonrpc.is_none());
    assert!(matches!(call.id, CallId::Null));
}

#[test]
fn prepared_call_keeps_kind_path_input_and_context() {
    let (ctx, call) = prepare_call::<u8, ()>(
        ProcedureKind::Mutation,
        "sendMsg".to_string(),
        Some(Value::from("hi")),
        Ok(7),
    )
    .ok()
    .unwrap();
    assert_eq!(ctx, 7);
    assert_eq!(call.jsonrpc, None);
    assert!(matches!(call.id, CallId::Null));
    assert_eq!(call.kind, ProcedureKind::Mutation);
    assert_eq!(call.path, "sendMsg");
    assert_eq!(call.input, Some(Value::from("hi")));
}

#[test]
fn serialized_response_is_a_success() {
    let r = reply_from_serialized(Ok(b"{}".to_vec()));
    assert_eq!(r.status, Status::Success);
    assert!(r.json);
    assert_eq!(r.body, b"{}".to_vec());
}

#[test]
fn failed_serialization_is_a_server_error() {
    let err = serde_json::from_str::<Value>("").unwrap_err();
    let r = reply_from_serialized(Err(err));
    assert_eq!(r.status, Status::InternalServerError);
    assert_eq!(r.body, b"[]".to_vec());
}

#[test]
fn router_response_is_serialized() {
    let resp = Response {
        jsonrpc: "2.0",
        id: RequestId::Null,
        result: ResponseInner::Response(Value::String("0.1.0".to_string())),
    };
    let expected = serde_json::to_vec(&resp).unwrap();
    let r = reply_for_response(resp);
    assert_eq!(r.body, expected);
    assert_eq!(r.status, Status::Success);
    assert!(r.json);
    let back: Value = serde_json::from_slice(&r.body).unwrap();
    assert_eq!(back["jsonrpc"], Value::from("2.0"));
    assert_eq!(back["id"], Value::Null);
    assert_eq!(back["result"]["type"], Value::from("response"));
    assert_eq!(back["result"]["data"], Value::from("0.1.0"));
}

//! The decisions of the websocket connection: what a received frame leads
//! to, and whether a request in it can be run.
use vstd::prelude::*;
use vstd::utf8::encode_utf8;
use crate::json::{
    json_bytes_accepted, json_is_array, json_value, value_from_slice, value_from_str,
    value_is_array,
};

verus! {

/// `rspc::internal::jsonrpc::Request`, carried through as an opaque value.
#[verifier::external_type_specification]
#[verifier::external_body]
pub struct ExRpcRequest(rspc::internal::jsonrpc::Request);

/// The request that `serde_json::from_value::<jsonrpc::Request>` reads from a
/// JSON value, or `None` when it refuses the value.
pub uninterp spec fn json_request(value: serde_json::Value) -> Option<
    rspc::internal::jsonrpc::Request,
>;

/// The requests that `serde_json::from_value::<Vec<jsonrpc::Request>>` reads
/// from a JSON value, in order, or `None` when it refuses the value.
pub uninterp spec fn json_request_batch(value: serde_json::Value) -> Option<
    Seq<rspc::internal::jsonrpc::Request>,
>;

/// `serde_json::from_value::<jsonrpc::Request>`: the request the value holds,
/// an error exactly when the value holds none.
#[verifier::external_body]
fn request_from_value(value: serde_json::Value) -> (r: Result<
    rspc::internal::jsonrpc::Request,
    serde_json::Error,
>)
    ensures
        match r {
            Ok(q) => json_request(value) == Some(q),
            Err(_) => json_request(value) is None,
        },
{
    serde_json::from_value(value)
}

/// `serde_json::from_value::<Vec<jsonrpc::Request>>`: the requests the value
/// holds, an error exactly when the value holds no such list.
#[verifier::external_body]
fn request_batch_from_value(value: serde_json::Value) -> (r: Result<
    Vec<rspc::internal::jsonrpc::Request>,
    serde_json::Error,
>)
    ensures
        match r {
            Ok(qs) => json_request_batch(value) == Some(qs@),
            Err(_) => json_request_batch(value) is None,
        },
{
    serde_json::from_value(value)
}

/// What the connection received: a frame of one of these kinds, or a
/// protocol error.
pub enum Frame {
    Text(String),
    Binary(Vec<u8>),
    Ping,
    Pong,
    Close,
    /// A continuation frame or a no-op.
    Other,
    ProtocolError,
}

/// What to do with a received frame.
pub enum FrameAction {
    /// Close the connection and stop.
    Close,
    /// The payload holds no requests: run nothing, and go on.
    Ignore,
    /// Run these requests, in order.
    Run(Vec<rspc::internal::jsonrpc::Request>),
}

/// The requests a JSON value holds: a JSON array is read as a batch of
/// requests; any other value as one request, which makes a batch of one.
pub open spec fn requests_of_value(value: serde_json::Value) -> Option<
    Seq<rspc::internal::jsonrpc::Request>,
> {
    if json_is_array(value) {
        json_request_batch(value)
    } else {
        match json_request(value) {
            Some(q) => Some(seq![q]),
            None => None,
        }
    }
}

/// The requests a frame payload holds: none when it is not JSON, else those
/// of its JSON document.
pub open spec fn requests_of_payload(bytes: Seq<u8>) -> Option<
    Seq<rspc::internal::jsonrpc::Request>,
> {
    if json_bytes_accepted(bytes) {
        requests_of_value(json_value(bytes))
    } else {
        None
    }
}

/// What a frame leads to, described over plain values: `None` to close the
/// connection, else the requests to run (`Some(None)` when there are none).
pub open spec fn frame_outcome(frame: Frame) -> Option<
    Option<Seq<rspc::internal::jsonrpc::Request>>,
> {
    match frame {
        Frame::Text(text) => Some(requests_of_payload(encode_utf8(text@))),
        Frame::Binary(bytes) => Some(requests_of_payload(bytes@)),
        _ => None,
    }
}

/// The outcome that an action carries out.
pub open spec fn action_outcome(action: FrameAction) -> Option<
    Option<Seq<rspc::internal::jsonrpc::Request>>,
> {
    match action {
        FrameAction::Close => None,
        FrameAction::Ignore => Some(None),
        FrameAction::Run(qs) => Some(Some(qs@)),
    }
}

/// Reads the requests out of a JSON value: a batch when the value is an
/// array, a batch of one otherwise; nothing when they cannot be read.
pub fn decode_requests(value: serde_json::Value) -> (r: Option<
    Vec<rspc::internal::jsonrpc::Request>,
>)
    ensures
        match r {
            Some(qs) => requests_of_value(value) == Some(qs@),
            None => requests_of_value(value) is None,
        },
{
    if value_is_array(&value) {
        match request_batch_from_value(value) {
            Ok(qs) => Some(qs),
            Err(_) => None,
        }
    } else {
        match request_from_value(value) {
            Ok(q) => {
                let mut qs = Vec::new();
                qs.push(q);
                assert(qs@ =~= seq![q]);
                Some(qs)
            },
            Err(_) => None,
        }
    }
}

/// What a parsed payload leads to: the requests it holds, or nothing when it
/// is not JSON or holds no requests.
pub fn action_for_parse(parsed: Result<serde_json::Value, serde_json::Error>) -> (a: FrameAction)
    ensures
        match parsed {
            Ok(v) => action_outcome(a) == Some(requests_of_value(v)),
            Err(_) => a is Ignore,
        },
{
    match parsed {
        Ok(value) => match decode_requests(value) {
            Some(qs) => FrameAction::Run(qs),
            None => FrameAction::Ignore,
        },
        Err(_) => FrameAction::Ignore,
    }
}

/// What a received frame leads to: the JSON payload of a text or binary frame
/// is read as requests to run; every other frame, and a protocol error,
/// closes the connection.
pub fn frame_action(frame: Frame) -> (a: FrameAction)
    ensures
        action_outcome(a) == frame_outcome(frame),
{
    match frame {
        Frame::Text(text) => action_for_parse(value_from_str(text.as_str())),
        Frame::Binary(bytes) => action_for_parse(value_from_slice(bytes.as_slice())),
        _ => FrameAction::Close,
    }
}

/// A JSON array is run as exactly the batch serde_json reads from it, all of
/// its requests in order, whatever its length.
pub proof fn array_runs_its_batch(value: serde_json::Value)
    requires
        json_is_array(value),
    ensures
        requests_of_value(value) == json_request_batch(value),
{
}

/// A JSON value that is not an array holds nothing to run when it is not a
/// request.
pub proof fn non_array_non_request_runs_nothing(value: serde_json::Value)
    requires
        !json_is_array(value),
        json_request(value) is None,
    ensures
        requests_of_value(value) is None,
{
}

/// A text frame runs what the JSON document in its UTF-8 bytes holds, whatever
/// its size: the batch of an array, the one request of any other value, and
/// nothing when the bytes are not JSON.
pub proof fn text_frame_runs_its_document(text: String)
    ensures
        !json_bytes_accepted(encode_utf8(text@)) ==> frame_outcome(Frame::Text(text)) == Some(
            None::<Seq<rspc::internal::jsonrpc::Request>>,
        ),
        json_bytes_accepted(encode_utf8(text@)) && json_is_array(json_value(encode_utf8(text@)))
            ==> frame_outcome(Frame::Text(text)) == Some(
            json_request_batch(json_value(encode_utf8(text@))),
        ),
        json_bytes_accepted(encode_utf8(text@)) && !json_is_array(json_value(encode_utf8(text@)))
            && json_request(json_value(encode_utf8(text@))) is Some ==> frame_outcome(
            Frame::Text(text),
        ) == Some(Some(seq![json_request(json_value(encode_utf8(text@)))->Some_0])),
{
}

/// A binary frame runs what the JSON document in its bytes holds, whatever
/// its size.
pub proof fn binary_frame_runs_its_document(bytes: Vec<u8>)
    ensures
        !json_bytes_accepted(bytes@) ==> frame_outcome(Frame::Binary(bytes)) == Some(
            None::<Seq<rspc::internal::jsonrpc::Request>>,
        ),
        json_bytes_accepted(bytes@) && json_is_array(json_value(bytes@)) ==> frame_outcome(
            Frame::Binary(bytes),
        ) == Some(json_request_batch(json_value(bytes@))),
        json_bytes_accepted(bytes@) && !json_is_array(json_value(bytes@)) && json_request(
            json_value(bytes@),
        ) is Some ==> frame_outcome(Frame::Binary(bytes)) == Some(
            Some(seq![json_request(json_value(bytes@))->Some_0]),
        ),
{
}

/// Control frames and protocol errors close the connection.
pub proof fn control_frames_close()
    ensures
        frame_outcome(Frame::Ping) is None,
        frame_outcome(Frame::Pong) is None,
        frame_outcome(Frame::Close) is None,
        frame_outcome(Frame::Other) is None,
        frame_outcome(Frame::ProtocolError) is None,
{
}

/// A binary frame leads to what a text frame leads to when its bytes are the
/// UTF-8 encoding of the text.
pub proof fn binary_frame_acts_like_its_text(text: String, bytes: Vec<u8>)
    requires
        bytes@ == encode_utf8(text@),
    ensures
        frame_outcome(Frame::Binary(bytes)) == frame_outcome(Frame::Text(text)),
{
}

/// A JSON value that is not an array and holds a request is run as a batch
/// of that one request.
pub proof fn single_request_is_batch_of_one(value: serde_json::Value)
    requires
        !json_is_array(value),
        json_request(value) is Some,
    ensures
        requests_of_value(value) == Some(seq![json_request(value)->Some_0]),
{
}

/// Whether a decoded request can run.
pub enum RequestStep<C> {
    /// Run the request with this context.
    Execute(C),
    /// Building the context failed: close the connection and stop.
    CloseConnection,
}

/// A request runs with the context built for it; when building the context
/// fails, the connection is closed and the rest of the frame is dropped.
pub fn request_step<C, E>(context: Result<C, E>) -> (s: RequestStep<C>)
    ensures
        match context {
            Ok(c) => s matches RequestStep::Execute(d) && d == c,
            Err(_) => s is CloseConnection,
        },
{
    match context {
        Ok(c) => RequestStep::Execute(c),
        Err(_) => RequestStep::CloseConnection,
    }
}

} // verus!

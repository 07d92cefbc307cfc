use rspc::internal::jsonrpc::{RequestId, RequestInner};
use rspc_actix::ws::{decode_requests, frame_action, request_step, Frame, FrameAction, RequestStep};
use serde_json::Value;

const QUERY: &str = r#"{"jsonrpc":"2.0","id":1,"method":"query","params":{"path":"version","input":null}}"#;
const MUTATION: &str = r#"{"id":"m","method":"mutation","params":{"path":"sendMsg","input":"hi"}}"#;

fn paths(action: FrameAction) -> Vec<String> {
    match action {
        FrameAction::Run(reqs) => reqs
            .into_iter()
            .map(|r| match r.inner {
                RequestInner::Query { path, .. } => format!("query:{path}"),
                RequestInner::Mutation { path, .. } => format!("mutation:{path}"),
                _ => "other".to_string(),
            })
            .collect(),
        FrameAction::Ignore => panic!("expected requests, got ignore"),
        FrameAction::Close => panic!("expected requests, got close"),
    }
}

#[test]
fn text_array_is_a_batch() {
    let text = format!("[{QUERY},{MUTATION}]");
    assert_eq!(paths(frame_action(Frame::Text(text))), vec!["query:version", "mutation:sendMsg"]);
}

#[test]
fn text_object_is_a_batch_of_one() {
    let action = frame_action(Frame::Text(QUERY.to_string()));
    match action {
        FrameAction::Run(reqs) => {
            assert_eq!(reqs.len(), 1);
            assert_eq!(reqs[0].id, RequestId::Number(1));
            assert_eq!(reqs[0].jsonrpc.as_deref(), Some("2.0"));
        }
        _ => panic!("expected one request"),
    }
    assert_eq!(
        paths(frame_action(Frame::Text(QUERY.to_string()))),
        paths(frame_action(Frame::Text(format!("[{QUERY}]"))))
    );
}

#[test]
fn binary_frame_acts_like_text() {
    assert_eq!(
        paths(frame_action(Frame::Binary(MUTATION.as_bytes().to_vec()))),
        paths(frame_action(Frame::Text(MUTATION.to_string())))
    );
}

#[test]
fn empty_batch_runs_nothing() {
    assert!(paths(frame_action(Frame::Binary(b"[]".to_vec()))).is_empty());
}

#[test]
fn batch_with_a_bad_element_is_ignored() {
    let text = format!("[{QUERY},{{\"x\":1}}]");
    assert!(matches!(frame_action(Frame::Text(text)), FrameAction::Ignore));
}

#[test]
fn json_that_is_not_a_request_is_ignored() {
    assert!(matches!(frame_action(Frame::Text("{\"id\":null}".to_string())), FrameAction::Ignore));
    assert!(matches!(frame_action(Frame::Text("42".to_string())), FrameAction::Ignore));
}

#[test]
fn payload_that_is_not_json_is_ignored() {
    assert!(matches!(frame_action(Frame::Text("hello".to_string())), FrameAction::Ignore));
    assert!(matches!(frame_action(Frame::Binary(vec![0xff])), FrameAction::Ignore));
}

#[test]
fn control_frames_and_errors_close() {
    assert!(matches!(frame_action(Frame::Ping), FrameAction::Close));
    assert!(matches!(frame_action(Frame::Pong), FrameAction::Close));
    assert!(matches!(frame_action(Frame::Close), FrameAction::Close));
    assert!(matches!(frame_action(Frame::Other), FrameAction::Close));
    assert!(matches!(frame_action(Frame::ProtocolError), FrameAction::Close));
}

#[test]
fn decode_requests_reads_a_single_object() {
    let v: Value = serde_json::from_str(MUTATION).unwrap();
    let reqs = decode_requests(v).unwrap();
    assert_eq!(reqs.len(), 1);
    assert_eq!(reqs[0].id, RequestId::String("m".to_string()));
    assert!(decode_requests(Value::Null).is_none());
}

#[test]
fn request_runs_with_its_context() {
    assert!(matches!(request_step::<u8, ()>(Ok(3)), RequestStep::Execute(3)));
    assert!(matches!(request_step::<u8, ()>(Err(())), RequestStep::CloseConnection));
}

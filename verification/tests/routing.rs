use rspc_actix::routing::{route, Method, ProcedureKind, Route};

#[test]
fn get_ws_opens_a_websocket() {
    assert_eq!(route(Method::Get, "ws", true), Route::WebSocket);
}

#[test]
fn get_ws_without_websockets_is_unavailable() {
    assert_eq!(route(Method::Get, "ws", false), Route::WebSocketUnavailable);
}

#[test]
fn get_other_segment_runs_a_query() {
    assert_eq!(route(Method::Get, "echo", true), Route::Procedure(ProcedureKind::Query));
    assert_eq!(route(Method::Get, "wss", true), Route::Procedure(ProcedureKind::Query));
    assert_eq!(route(Method::Get, "", false), Route::Procedure(ProcedureKind::Query));
}

#[test]
fn post_runs_a_mutation_even_on_ws() {
    assert_eq!(route(Method::Post, "sendMsg", true), Route::Procedure(ProcedureKind::Mutation));
    assert_eq!(route(Method::Post, "ws", true), Route::Procedure(ProcedureKind::Mutation));
}

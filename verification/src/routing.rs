//! Which handler a request under `/{id}` goes to.
use vstd::prelude::*;
use crate::text::str_eq;

verus! {

/// The request methods the adapter tells apart.
#[derive(Clone, Copy, Debug, PartialEq, Eq, Structural)]
pub enum Method {
    Get,
    Post,
    /// Any other method; the adapter does not serve these.
    Other,
}

/// The three kinds of rspc procedures.
#[derive(Clone, Copy, Debug, PartialEq, Eq, Structural)]
pub enum ProcedureKind {
    Query,
    Mutation,
    Subscription,
}

/// Where a request goes.
#[derive(Clone, Copy, Debug, PartialEq, Eq, Structural)]
pub enum Route {
    /// Upgrade the connection to a websocket.
    WebSocket,
    /// A websocket was asked for but this build serves none.
    WebSocketUnavailable,
    /// Run one procedure of the given kind over plain HTTP.
    Procedure(ProcedureKind),
}

/// The path segment that asks for a websocket.
pub open spec fn websocket_segment() -> Seq<char> {
    seq!['w', 's']
}

/// The route of a request with the given method and path segment.
pub open spec fn route_of(method: Method, id: Seq<char>, websockets: bool) -> Route
    recommends
        method != Method::Other,
{
    match method {
        Method::Get => if id == websocket_segment() {
            if websockets {
                Route::WebSocket
            } else {
                Route::WebSocketUnavailable
            }
        } else {
            Route::Procedure(ProcedureKind::Query)
        },
        _ => Route::Procedure(ProcedureKind::Mutation),
    }
}

/// A `GET` whose segment is not exactly `ws` runs a query, whatever the
/// segment and whether websockets are served.
pub proof fn get_other_than_ws_is_query(id: Seq<char>, websockets: bool)
    requires
        id != seq!['w', 's'],
    ensures
        route_of(Method::Get, id, websockets) == Route::Procedure(ProcedureKind::Query),
{
}

/// `GET ws` asks for a websocket: it is upgraded when websockets are served,
/// and is unavailable otherwise; it never runs a procedure.
pub proof fn get_ws_asks_for_websocket(websockets: bool)
    ensures
        websockets ==> route_of(Method::Get, seq!['w', 's'], true) == Route::WebSocket,
        !websockets ==> route_of(Method::Get, seq!['w', 's'], false)
            == Route::WebSocketUnavailable,
        route_of(Method::Get, seq!['w', 's'], websockets) !is Procedure,
{
}

/// Every `POST` runs a mutation, whatever its segment (`ws` included) and
/// whether websockets are served.
pub proof fn post_is_mutation(id: Seq<char>, websockets: bool)
    ensures
        route_of(Method::Post, id, websockets) == Route::Procedure(ProcedureKind::Mutation),
{
}

/// Routes a request: `GET /ws` opens a websocket (when `websockets` is set),
/// any other `GET` runs a query, and a `POST` runs a mutation.
pub fn route(method: Method, id: &str, websockets: bool) -> (r: Route)
    requires
        method != Method::Other,
    ensures
        r == route_of(method, id@, websockets),
{
    proof {
        reveal_strlit("ws");
        assert("ws"@ =~= websocket_segment());
    }
    match method {
        Method::Get => {
            if str_eq(id, "ws") {
                if websockets {
                    Route::WebSocket
                } else {
                    Route::WebSocketUnavailable
                }
            } else {
                Route::Procedure(ProcedureKind::Query)
            }
        },
        _ => Route::Procedure(ProcedureKind::Mutation),
    }
}

} // verus!

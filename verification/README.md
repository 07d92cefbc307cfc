# rspc_actix

Serves an rspc router from actix-web, over plain HTTP (`GET /{name}` runs a
query, `POST /{name}` a mutation) and over a websocket (`GET /ws`).

- `src/` holds the decisions, verified with Verus: routing (`routing`), the
  procedure name of a request path (`procedure`), the `input` query
  parameter (`query`), the mutation body (`body`), the input, call and answer
  of an HTTP procedure call (`http`, `reply`), and what a websocket frame
  leads to (`ws`). Calls into `serde_json`, `form_urlencoded` and std's string
  functions stand behind small trusted wrappers (`json`, `query`, `text`).
- `app/` holds the actix-web plumbing: service registration, request and body
  I/O, the awaited router calls, and the websocket actor.

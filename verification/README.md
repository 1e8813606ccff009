# h12tiny

A direct-origin HTTP/1 and HTTP/2 client whose decisions are verified with Verus.

- `src/` is the verified library. It holds no I/O: each stage of a connection or
  of a request is a value that says what is to be done next and what follows from
  the outcome.
  - `uri`, `normalize`: request targets, origins, the form of a request on the wire
  - `address`, `race`: the order of resolved addresses and the race between them
  - `tls`, `connect`, `establish`, `connector`: TLS policy and the phases of an
    establishment
  - `client`, `exchange`, `session`: client policy, the way of a request, HTTP
    sessions
  - `http2`, `options`, `info`, `events`, `error`: settings, deadlines, facts about
    connections, lifecycle events, classified errors
  - `body`, `reader`, `idle`, `collect`, `replay`, `header`: body conveniences
- `app/` drives the library over Hyper, Rustls and `async-io`, and adapts bodies to
  the `http-body` and stream traits. It opens a connection for every request unless
  it is given a pool of sessions.
- `tests/` runs the library with the real outside crates.

What the proofs rest on beside Verus itself are the functions marked
`external_body`: each makes an outside call, and its comment says what is taken on
trust of it.

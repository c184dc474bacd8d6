# nickel (verified request logic)

`src/` is the verified library: the request value handed to middleware,
with its origin (method, target, path, version, headers, body), route
parameters, plugin extension storage and shared data (`request.rs`); the
lookup of route parameters (`router.rs`); the cut of a request path at its
query string with its proofs over UTF-8 (`path.rs`); string equality on
UTF-8 bytes (`text.rs`); and the server value with its template cache (`server.rs`).

`app/` is the server around it: hyper reads requests, `app/request.rs` turns
them into the library's request and implements the plugin traits on it,
`app/response.rs` gives the middleware the response with the server's
templates and data, and `app/server.rs` binds the socket and runs the
middleware.

# Domain fronting

A library for domain fronting: tunnelling TCP connections through HTTP requests. The SNI field of
the TLS handshake names one host of a CDN, the front, while the `Host` header inside names another,
the proxy.

## Protocol

- Client to server: data is sent as the body of repeated `POST` and `PATCH` requests.
- Server to client: the client issues one `GET` per session, and the server streams the data of
  upstream back in the body of the response.
- Server to upstream: the server opens one TCP stream per session.

Every request carries a session identifier in a header, `X-Session: <random uuid>`. A `GET` or a
`POST` with an identifier that the server does not know opens a session. `PATCH` never does.

The client speaks HTTP/2 over one connection, or HTTP/1.1 over two, one per direction.

## Layout

- `src/` is the core: fronting configurations, requests, the two pumps of the client, the session
  table of the server, sessions and their timeouts. It does no I/O: events go in, decisions come
  out. Every function is verified with Verus against its contract. `src/tunnel.rs` states what
  holds of the client and the server together.
- `app/` is the I/O around the core: sockets, TLS, HTTP connections, one actor per session, and the
  example programs.
- `tests/` runs the core, with upstreams in memory and a clock of its own.

What the core takes from other crates stands behind small functions marked
`#[verifier::external_body]`, each with a comment that says what is taken on trust.

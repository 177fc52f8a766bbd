# crabby_proxy

A multi-protocol proxy (HTTP CONNECT, HTTP, HTTPS by SNI, SOCKS4, SOCKS5,
raw TCP) whose decisions are verified with Verus.

- `src/` is the verified library:
  - `proxy/listener.rs` — protocol detection and the replies owed to clients;
  - `proxy/target.rs`, `proxy/sni.rs` — parsing the destination in each protocol;
  - `proxy/auth.rs` — Basic, SOCKS4 user-id and SOCKS5 username/password checks;
  - `proxy/relay.rs` — the `CONNECT` exchange with an upstream proxy;
  - `connection.rs` — the approval workflow of connection requests;
  - `tunnel/` — reverse tunnels and the allocator of their ports;
  - `tls.rs` — choosing the server key and certificate chain from PEM text;
  - `runtime.rs` — random identifiers and clock readings, each of which may fail;
  - `text.rs` — decimal formatting, port parsing, white space.
- `app/` is the server program: sockets, file reads, the TLS handshake,
  timeouts, tasks and logging. It calls the library for parsing,
  authentication (including whether a client may go on), replies and
  bookkeeping; two small steps stay there with the I/O around them: tagging
  a failed step with the kind of reply it gets, and formatting an IPv6 target.
- `tests/` exercise the library on concrete values.

# memcache connection set-up

A verified library that reads a `memcache://` URL into what a memcached client
connects with, and an unverified crate (`app/`) that opens the sockets.

- `src/parsed_url.rs` — the URL's parts as plain values, read with the `url` crate.
- `src/options.rs` — TCP, UDP and TLS options from the URL's query.
- `src/transport.rs` — the transport a URL asks for; the scheme's kind comes first.
- `src/connection.rs` — the connection, its manager's credentials, the plan for connecting and its steps in order.
- `src/server_name.rs` — a TLS server name kept with the host text it was made from.
- `src/tls.rs` — the TLS client set-up, server names and PEM key material (`rustls`, `rustls-pemfile`).
- `app/lib.rs` — streams, TLS configuration, and the `r2d2` connection manager.

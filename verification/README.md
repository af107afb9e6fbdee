# vetis_smol

The decisions of a smol-driven HTTP server, verified with Verus.

- `src/protocol.rs`: HTTP versions and the ALPN identifiers the server advertises.
- `src/connection.rs`: how the accept loop routes a connection (TLS or plain
  text, HTTP/1.1 or HTTP/2) from what it peeked and negotiated.
- `src/listener.rs`: listener settings, TCP listeners and their accept-loop task.
- `src/server.rs`: starting the server (which listeners are opened, in which
  order) and stopping it (which tasks are handed back to be cancelled).
- `src/tls.rs`: the protocol parameters of the server's TLS configuration.
- `src/error.rs`: the errors the server refuses a request with.

`app/` runs these decisions on smol: it binds sockets, performs TLS
handshakes, serves connections with hyper and vetis, holds the virtual hosts
behind their lock, and cancels tasks.

This build serves HTTP/1.1 and HTTP/2 over TCP; it has no HTTP/3 listener.

The certificates and keys of the TLS configuration come from a source the
caller gives `SmolVetis::new` (`TlsConfigSource` in `app/listener.rs`); the
library fixes the ALPN list and the early-data limit applied to it.

//! Connection routing and server lifecycle for a smol-driven HTTP server.
//!
//! The crate holds the decisions of the server: which ALPN protocols it
//! advertises, how an accepted connection is routed (TLS or plain text,
//! HTTP/1.1 or HTTP/2), which configured listeners are opened when the
//! server starts, and what stopping the server hands back to be cancelled.
//! Sockets, TLS handshakes, locks and tasks are driven by the caller, which
//! feeds the outcome of each step back into these functions.

pub mod connection;
pub mod error;
pub mod listener;
pub mod protocol;
pub mod server;
pub mod tls;

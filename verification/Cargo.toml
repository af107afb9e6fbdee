[package]
name = "vetis_smol"
version = "0.1.0"
edition = "2021"
publish = false

[dependencies]
vetis = "=0.1.6"
smol = "=2.0.2"
http = "=1.5.0"
hyper = { version = "=1.12.0", features = ["server", "http1", "http2"] }
futures-lite = "=2.6.1"
futures-rustls = "=0.26.0"
peekable = { version = "=0.6.2", features = ["future"] }
smol-hyper = "=0.1.1"
async-signal = "=0.2.14"
signal-hook = "=0.4.6"
log = "=0.4.35"
hyper-body-utils = "=0.1.9"

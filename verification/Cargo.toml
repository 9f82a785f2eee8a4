[package]
name = "mbongo-network"
version = "0.3.0"
edition = "2021"
publish = false

[dependencies]
futures = "0.3"
libp2p = { version = "0.54", features = ["identify", "macros", "mdns", "noise", "ping", "request-response", "tcp", "tokio", "yamux"] }
log = "0.4"
tokio = { version = "1", features = ["macros", "rt", "sync", "time"] }

[package]
name = "bee-node"
version = "0.1.0"
edition = "2021"
publish = false

[dependencies]
async-trait = "0.1"
futures = "0.3"
libp2p = { version = "0.39", default-features = false }
log = "0.4"
rand = "0.8"
serde = { version = "1", features = ["derive"] }
tokio = { version = "1", features = ["rt", "sync", "time", "macros"] }
tokio-stream = { version = "0.1", features = ["time"] }

[package]
name = "mdingest"
version = "0.1.0"
edition = "2021"
publish = false

[dependencies]
serde_json = "*"
serde = "*"
anyhow = "*"
scylla = "*"
tokio = { version = "*", features = ["rt", "macros"] }
zmq = "*"

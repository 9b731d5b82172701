[package]
name = "peer_monitoring"
version = "0.1.0"
edition = "2021"
publish = false

[dependencies]
rand = "*"
tokio = { version = "*", features = ["rt", "time"] }
bcs = "*"
serde = { version = "*", features = ["derive"] }

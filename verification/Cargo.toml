[package]
name = "rkv"
version = "0.1.0"
edition = "2021"
publish = false

[dependencies]
tonic = "*"
redis = { version = "*", features = ["aio", "tokio-comp", "connection-manager"] }

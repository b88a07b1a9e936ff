[package]
name = "mongo_tracing"
version = "0.1.0"
edition = "2021"
publish = false

[dependencies]
mongodb = "2.8"
serde = "1"
tracing = "0.1"

[dev-dependencies]
tokio = { version = "1", features = ["rt"] }

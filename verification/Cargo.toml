[package]
name = "nessa_sdk"
version = "0.1.0"
edition = "2021"
publish = false

[dependencies]
serde = { version = "1", features = ["derive"] }
tokio = { version = "1", features = ["sync", "rt", "macros", "time"] }
tracing = "0.1"
uuid = { version = "1", features = ["v4"] }

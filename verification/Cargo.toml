[package]
name = "bot_supervisor"
version = "0.1.0"
edition = "2021"
publish = false

[dependencies]
uuid = { version = "1", features = ["v4"] }
serde = { version = "1", features = ["derive"] }
tokio = { version = "1", features = ["rt-multi-thread", "sync", "macros"] }
tokio-stream = { version = "0.1" }
tonic = { version = "0.12", default-features = false, features = ["codegen"] }

[package]
name = "gemini_stream"
version = "0.1.0"
edition = "2021"
publish = false

[dependencies]
chrono = "0.4"
serde = { version = "1", features = ["derive"] }
serde_json = "1"
uuid = { version = "1", features = ["v4"] }
tokio = { version = "1", features = ["process", "io-util", "rt", "time", "macros"] }
command-group = { version = "5", features = ["with-tokio"] }
tracing = "0.1"

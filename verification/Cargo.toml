[package]
name = "gotify_stream"
version = "0.1.0"
edition = "2021"
publish = false

[dependencies]
serde_json = "*"
urlencoding = "*"
serde = { version = "*", features = ["derive"] }
serde_yaml = "*"
dirs = "*"
tokio = { version = "*", features = ["rt-multi-thread", "macros", "time", "sync"] }
tokio-tungstenite = "*"
futures-util = "*"

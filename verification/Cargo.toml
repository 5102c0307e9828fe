[package]
name = "easytier_ios"
version = "0.1.0"
edition = "2021"
publish = false

[dependencies]
once_cell = "1"
serde_json = "1"
tokio = { version = "1", features = ["rt-multi-thread", "time", "sync", "net"] }
tracing = "0.1"
tracing-oslog = "*"
tracing-subscriber = { version = "0.3", features = ["env-filter"] }
uuid = { version = "1", features = ["v4"] }
x25519-dalek = { version = "2", features = ["static_secrets"] }

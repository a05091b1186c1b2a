[package]
name = "bee_metrics"
version = "0.1.0"
edition = "2021"
publish = false

[dependencies]
futures = "0.3"
tokio = { version = "1", features = ["rt", "sync", "time"] }
tracing = "0.1"
tracing-core = "0.1"
tracing-subscriber = { version = "0.2", default-features = false, features = ["fmt", "registry"] }

[package]
name = "cache"
version = "0.1.0"
edition = "2021"

[dependencies]
turso = "*"
tokio = { version = "1", features = ["sync", "rt"] }
tracing = "0.1"

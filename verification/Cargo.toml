[package]
name = "grpc_discovery"
version = "0.1.0"
edition = "2021"
publish = false

[dependencies]
anyhow = "*"
serde = { version = "*", features = ["derive"] }
serde_json = "*"
thiserror = "*"
tokio = { version = "*", features = ["rt-multi-thread", "macros", "net", "time", "sync"] }
tokio-stream = "*"
tonic = "*"
tonic-reflection = "*"
tracing = "*"
tracing-subscriber = "*"

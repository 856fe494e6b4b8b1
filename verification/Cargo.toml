[package]
name = "vertex_stream"
version = "0.1.0"
edition = "2021"
publish = false

[dependencies]
anyhow = "=1.0.104"
futures = "=0.3.34"
gcp_auth = "=0.12.7"
reqwest = { version = "=0.12.28", default-features = false, features = ["json", "stream"] }
reqwest-eventsource = "=0.6.0"
serde = { version = "=1.0.229", features = ["derive"] }
serde_json = "=1.0.151"
thiserror = "=2.0.21"
tokio = { version = "=1.53.2", features = ["rt", "sync", "macros"] }
tokio-stream = "=0.1.19"

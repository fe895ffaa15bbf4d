[package]
name = "session_store"
version = "0.1.0"
edition = "2021"
publish = false

[dependencies]
async-trait = "0.1"
axum-core = "0.4"
dashmap = "5"
http = "1"
serde = { version = "1", features = ["derive"] }
serde_json = "1"
time = "0.3"
tokio = { version = "1", features = ["sync"] }
tracing = "0.1"

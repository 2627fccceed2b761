[package]
name = "glazed"
version = "0.1.0"
edition = "2021"
publish = false

[dependencies]
async-graphql = "=7.2.1"
axum = "=0.8.9"
reqwest = { version = "=0.12.28", default-features = false, features = ["stream"] }
serde = { version = "=1.0.229", features = ["derive"] }
serde_json = "=1.0.154"
tokio = { version = "=1.54.1", features = ["full"] }
tracing = "=0.1.44"
tracing-subscriber = "=0.3.23"
url = "=2.5.8"

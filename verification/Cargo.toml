[package]
name = "forge_trace"
version = "0.1.0"
edition = "2021"
publish = false

[dependencies]
anyhow = "1"
async-trait = "0.1"
chrono = "0.4"
serde_json = "1"
tokio = { version = "1", features = ["fs", "io-util"] }
tracing = "0.1"
url = "2"

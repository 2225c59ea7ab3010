[package]
name = "codegraph_agent"
version = "0.1.0"
edition = "2021"
publish = false

[dependencies]
async-trait = "0.1"
autoagents = { version = "=0.4.0", default-features = false }
futures = "0.3"
schemars = "=1.2.3"
serde = { version = "=1.0.229", features = ["derive"] }
serde_json = { version = "=1.0.154", features = ["preserve_order"] }
tokio = { version = "1", features = ["rt"] }
tracing = "0.1"

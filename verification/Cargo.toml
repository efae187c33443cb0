[package]
name = "llmidium"
version = "0.1.0"
edition = "2021"
publish = false

[dependencies]
axum = "=0.8.9"
clap = { version = "=4.6.7", features = ["derive", "env"] }
mcp-client = "=0.1.0"
mcp-server = "=0.1.0"
mcp-spec = "=0.1.0"
schemars = "=0.8.22"
serde = { version = "=1.0.229", features = ["derive"] }
serde_json = "=1.0.154"
tokio = { version = "=1.54.1", features = ["full"] }
tower-service = "=0.3.3"
tracing = "=0.1.44"
tracing-appender = "=0.2.5"
tracing-subscriber = { version = "=0.3.23", features = ["env-filter"] }

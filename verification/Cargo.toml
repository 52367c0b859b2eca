[package]
name = "grok_chat"
version = "0.1.0"
edition = "2021"
publish = false

[dependencies]
serde = { version = "*", features = ["derive"] }
serde_json = "*"
reqwest = { version = "*", features = ["json"] }
rmcp = { version = "*", features = ["server", "transport-io"] }
tokio = { version = "*", features = ["full"] }
schemars = "*"
anyhow = "*"
thiserror = "*"
dirs = "*"
toml = "*"
tracing = "*"
tracing-subscriber = { version = "*", features = ["env-filter"] }

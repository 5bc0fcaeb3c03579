[package]
name = "code_agent"
version = "0.1.0"
edition = "2021"
publish = false

[dependencies]
anyhow = "=1.0.104"
async-openai = { version = "=0.42.1", features = ["chat-completion"] }
clap = { version = "=4.6.7", features = ["derive"] }
dotenvy = "=0.15.7"
rmcp = { version = "=3.5.1", features = ["server", "transport-io"] }
schemars = "=1.2.2"
serde = { version = "=1.0.229", features = ["derive"] }
thiserror = "=2.0.21"
tokio = { version = "=1.53.2", features = ["full"] }
tracing = "=0.1.44"
tracing-subscriber = { version = "=0.3.23", features = ["env-filter"] }
uuid = { version = "=1.27.0", features = ["v4"] }

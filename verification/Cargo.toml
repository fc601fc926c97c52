[package]
name = "llm_agent"
version = "0.1.0"
edition = "2021"
publish = false

[dependencies]
hxd = "=0.1.3"
async-openai = { version = "=0.42.1", features = ["chat-completion"] }
tokio = { version = "=1.53.2", features = ["full"] }
serde = { version = "=1.0.229", features = ["derive"] }
serde_json = "=1.0.151"
schemars = "=1.2.2"
clap = { version = "=4.6.7", features = ["derive", "env"] }
thiserror = "=2.0.21"
log = "=0.4.34"

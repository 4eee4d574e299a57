[package]
name = "research_relay"
version = "0.1.0"
edition = "2021"
publish = false

[dependencies]
serde_json = "*"
tokio = { version = "*", features = ["macros", "rt-multi-thread", "sync"] }
anyhow = "*"
sacp = "*"
sacp-proxy = "*"
sacp-rmcp = "*"

[package]
name = "conversational_agent"
version = "0.1.0"
edition = "2021"
publish = false

[dependencies]
anyhow = "=1.0.104"
dspy-rs = { version = "=0.5.0", default-features = false }
tokio = { version = "=1.53.2", default-features = false, features = ["macros", "rt-multi-thread", "sync"] }
serde = { version = "1", features = ["derive"] }
serde_json = "1"

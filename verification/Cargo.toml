[package]
name = "synapse_agents"
version = "0.1.0"
edition = "2021"
publish = false

[dependencies]
serde_json = "1"
sha2 = "0.10"
chrono = "0.4"
serde = { version = "1", features = ["derive"] }
anyhow = "1"
tokio = { version = "1", features = ["rt", "time", "macros", "sync"] }
tokio-util = "0.7"
tracing = "0.1"
rmcp = { version = "*", features = ["server", "macros"] }
schemars = "1"

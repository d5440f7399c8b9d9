[package]
name = "agent_pipeline"
version = "0.1.0"
edition = "2021"
publish = false

[dependencies]
schemars = "*"
serde = "*"
serde_json = "*"
tracing = "*"

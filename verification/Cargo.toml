[package]
name = "mcp_protocol_sdk"
version = "0.1.0"
edition = "2021"
publish = false

[dependencies]
serde = { version = "1", features = ["derive"] }
serde_json = "1"
url = "2"
tokio = { version = "1", features = ["sync", "time", "rt", "macros"] }
async-trait = "0.1"
uuid = { version = "1", features = ["v4"] }

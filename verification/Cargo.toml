[package]
name = "nexuscore_mcp"
version = "0.1.0"
edition = "2021"
publish = false

[dependencies]
anyhow = "1"
async-trait = "0.1"
frida = "*"
reqwest = { version = "*", default-features = false, features = ["json", "multipart"] }
rmcp = "*"
serde_json = "1"
tokio = { version = "1", features = ["full"] }
tracing = "0.1"
tracing-subscriber = "0.3"
winreg = "*"

[package]
name = "qrcode_agent_cli"
version = "0.1.0"
edition = "2021"
publish = false

[dependencies]
qrcode = "*"
image = { version = "*", default-features = false, features = ["png"] }
clap = { version = "4", features = ["derive"] }
serde = { version = "1", features = ["derive"] }
serde_json = "1"
serde_yaml = "*"
toml = "*"
anyhow = "1"
dirs = "*"

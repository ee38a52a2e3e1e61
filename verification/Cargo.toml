[package]
name = "mcp_gateway"
version = "0.1.0"
edition = "2021"
publish = false

[dependencies]
base64 = "*"
image = { version = "*", default-features = false, features = ["jpeg"] }
rodio = "*"
xcap = "*"
serde = { version = "*", features = ["derive"] }
serde_json = "*"

[package]
name = "cpn_panel"
version = "0.1.0"
edition = "2021"
publish = false

[dependencies]
base64 = "=0.22.1"
hmac = "=0.12.1"
sha2 = "=0.10.9"
rand = "=0.9.5"
serde = { version = "=1.0.229", features = ["derive"] }
serde_json = "=1.0.154"
url = "2"

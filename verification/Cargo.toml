[package]
name = "isqr"
version = "0.1.0"
edition = "2021"
publish = false

[dependencies]
qrcode = { version = "*", default-features = false, features = ["svg"] }
serde = { version = "*", features = ["derive"] }
serde_json = "*"
url = "*"
worker = "*"

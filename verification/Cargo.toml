[package]
name = "goldline"
version = "0.1.0"
edition = "2021"
publish = false

[dependencies]
base64 = "*"
image = { version = "*", default-features = false, features = ["png"] }
serde = { version = "1", features = ["derive"] }
serde_yaml = "*"
tempfile = "*"
xcap = "*"

[package]
name = "paste_store"
version = "0.1.0"
edition = "2021"
publish = false

[dependencies]
base64 = "0.13"
md5 = "0.7"
rocket = "0.5"
serde = { version = "1", features = ["derive"] }
serde_json = "1"

[package]
name = "secure_vault"
version = "0.1.0"
edition = "2021"
publish = false

[dependencies]
keyring = "2"
serde = { version = "1", features = ["derive"] }
serde_json = { version = "1", features = ["preserve_order"] }

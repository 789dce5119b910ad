[package]
name = "token_vault"
version = "0.1.0"
edition = "2021"
publish = false

[dependencies]
keyring = "=3.6.3"
serde = { version = "=1.0.229", features = ["derive"] }
tauri = { version = "2", default-features = false }

[package]
name = "vault_core"
version = "0.1.0"
edition = "2021"
publish = false

[dependencies]
argon2 = { version = "=0.4.1", features = ["std"] }
magic-crypt = "=3.1.13"
tauri = { version = "2", default-features = false }

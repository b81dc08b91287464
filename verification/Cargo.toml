[package]
name = "session_auth"
version = "0.1.0"
edition = "2021"
publish = false

[dependencies]
argon2 = "0.5"
jsonwebtoken = { version = "9", default-features = false }
password-hash = "0.5"
rand = "0.8"
serde = { version = "1", features = ["derive"] }
serde_json = "1"

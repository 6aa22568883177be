[package]
name = "auth_core"
version = "0.1.0"
edition = "2021"
publish = false

[dependencies]
rust-argon2 = "=3.0.0"
jsonwebtoken = { version = "=11.1.0", features = ["rust_crypto"] }
serde_json = "*"
rand = "=0.10.3"
chrono = "*"
oauth2 = { version = "=5.0.0", features = ["reqwest-blocking"] }

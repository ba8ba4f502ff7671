[package]
name = "nonce_gate"
version = "0.1.0"
edition = "2021"
publish = false

[dependencies]
redis = "*"
rocket = { version = "*", features = ["json"] }
uuid = { version = "*", features = ["v4"] }

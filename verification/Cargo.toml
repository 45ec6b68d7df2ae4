[package]
name = "greentic_session"
version = "0.1.0"
edition = "2021"
publish = false

[dependencies]
greentic-types = "*"
serde_json = "*"
uuid = { version = "*", features = ["v4"] }
redis = { version = "*", default-features = false }

[package]
name = "rocket_oauth2"
version = "0.1.0"
edition = "2021"
publish = false

[dependencies]
log = "=0.4.34"
rocket = { version = "0.5", features = ["secrets"] }
serde = { version = "=1.0.229", features = ["derive"] }
serde_json = "=1.0.154"

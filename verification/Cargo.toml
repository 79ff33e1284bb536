[package]
name = "cargo_errors"
version = "0.1.0"
edition = "2021"
publish = false

[dependencies]
conduit = "*"
http = "*"
serde = { version = "*", features = ["derive"] }
serde_json = "*"

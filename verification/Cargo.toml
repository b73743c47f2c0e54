[package]
name = "experienced"
version = "0.1.0"
edition = "2021"
publish = false

[dependencies]
rand = "0.9"
hex = "0.4"
ed25519-dalek = "1"
base64 = "0.22"
serde = { version = "1", features = ["derive"] }
serde_json = "1"
toml = "0.8"
thiserror = "2"

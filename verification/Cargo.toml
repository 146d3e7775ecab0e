[package]
name = "sigkit"
version = "0.1.0"
edition = "2021"
publish = false

[dependencies]
base64 = "0.22"
ed25519-dalek = "2"
rand_core = { version = "0.6", features = ["std"] }

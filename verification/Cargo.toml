[package]
name = "onion_codec"
version = "0.1.0"
edition = "2021"
publish = false

[dependencies]
base64 = "=0.13.1"
serde = "=1.0.229"

[dev-dependencies]
serde_json = "=1.0.154"
ed25519-dalek = { version = "1.0", default-features = false, features = ["u64_backend"] }

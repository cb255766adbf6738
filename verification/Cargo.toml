[package]
name = "jwt_compact"
version = "0.1.0"
edition = "2021"
publish = false

[dependencies]
base64 = "0.13"
serde = { version = "1", features = ["derive"] }
serde_cbor = "0.11"
serde_json = "1"
smallvec = "1"

[dev-dependencies]
ed25519-dalek = "2"
hmac = "0.12"
rand = "0.8"
secp256k1 = "0.29"
sha2 = "0.10"

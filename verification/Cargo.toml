[package]
name = "app_backend"
version = "0.1.0"
edition = "2021"
publish = false

[dependencies]
candid = "0.10"
ic-cdk = "0.13"
keccak-hash = "0.10"
libsecp256k1 = "0.7"
serde = { version = "1", features = ["derive"] }

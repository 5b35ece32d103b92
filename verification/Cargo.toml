[package]
name = "id_registry"
version = "0.1.0"
edition = "2021"
publish = false

[dependencies]
hex = "=0.4.3"
near-sdk = { version = "=5.29.1", features = ["unstable", "non-contract-usage"] }

[dev-dependencies]
near-crypto = "=0.37.4"

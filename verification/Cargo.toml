[package]
name = "circuit_scaffold"
version = "0.1.0"
edition = "2021"
publish = false

[dependencies]
halo2-base = { version = "0.5", default-features = false }
snark-verifier-sdk = { version = "0.2", default-features = false, features = ["loader_halo2"] }
hex = "=0.4.3"
serde = { version = "=1.0.229", features = ["derive"] }
serde_json = "=1.0.154"
wasm-bindgen = "=0.2.129"

[dev-dependencies]
rand_chacha = "0.3"

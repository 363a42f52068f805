[package]
name = "kaspa_txgen"
version = "0.1.0"
edition = "2021"
publish = false

[dependencies]
kaspa-consensus-core = "*"
kaspa-addresses = "*"
kaspa-txscript = "*"
secp256k1 = "*"
serde = { version = "*", features = ["derive"] }
serde_json = "*"

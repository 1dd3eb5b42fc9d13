[package]
name = "bolt12_payer_proof"
version = "0.1.0"
edition = "2021"
publish = false

[dependencies]
lightning = "=0.2.7"
lightning-types = "=0.3.5"
bitcoin = "=0.32.102"
secp256k1 = { version = "=0.29.1", features = ["global-context"] }
hex = "=0.4.3"
serde = { version = "=1.0.229", features = ["derive"] }
serde_json = "=1.0.154"
clap = { version = "=4.6.7", features = ["derive"] }
rand = "=0.10.3"
rand_chacha = "=0.10.0"
thiserror = "=2.0.21"

[package]
name = "ink_engine"
version = "0.1.0"
edition = "2021"
publish = false

[dependencies]
parity-scale-codec = { version = "3", default-features = false, features = ["std"] }
secp256k1 = { version = "0.27", default-features = false, features = ["std", "recovery", "global-context"] }
blake2 = { version = "0.10", default-features = false }
sha2 = { version = "0.10", default-features = false }
sha3 = { version = "0.10", default-features = false }

[package]
name = "rayls_execution"
version = "0.1.0"
edition = "2021"
publish = false

[dependencies]
alloy = { version = "=1.8.3", default-features = false, features = ["sol-types", "k256", "rlp", "serde"] }
secp256k1 = { version = "=0.30.0", features = ["global-context", "recovery"] }
serde = { version = "=1.0.229", features = ["derive"] }
serde_json = "=1.0.154"
thiserror = "=2.0.21"
humantime = "=2.4.0"
lru_time_cache = "=0.11.11"

[dev-dependencies]
k256 = { version = "=0.13.4", features = ["ecdsa"] }

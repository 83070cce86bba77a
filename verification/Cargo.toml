[package]
name = "multi_hash_verified"
version = "1.0.6"
edition = "2021"
publish = false

[dependencies]
multi-codec = "=1.0.5"
multi-util = "=1.0.5"
multi-base = "=1.0.4"
hex = "=0.4.3"
thiserror = "=2.0.21"
serde = { version = "=1.0.229", features = ["derive"] }

[dev-dependencies]
multi-trait = "=1.0.5"

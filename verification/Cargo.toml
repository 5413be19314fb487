[package]
name = "hyperliquid_core"
version = "0.1.0"
edition = "2021"
publish = false

[dependencies]
alloy-primitives = "=1.7.3"
alloy-signer = "=2.5.0"
alloy-signer-local = "=2.5.0"
reqwest = { version = "0.12", default-features = false, features = ["blocking", "json"] }
serde = { version = "1", features = ["derive"] }
serde_json = { version = "1", features = ["preserve_order"] }
rmp-serde = "=1.3.1"
rust_decimal = "1"
chrono = { version = "0.4", default-features = false, features = ["clock"] }
dirs = "6"
dotenvy = "0.15"
uuid = { version = "1", default-features = false, features = ["v4"] }
anyhow = "1"

[dev-dependencies]
alloy-dyn-abi = { version = "1", features = ["eip712"] }

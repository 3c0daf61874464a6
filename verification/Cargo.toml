[package]
name = "hockey"
version = "0.1.0"
edition = "2021"
publish = false

[dependencies]
near-sdk = { version = "=5.30.0", features = ["non-contract-usage"] }
rand = "=0.7.3"
serde_json = "=1.0.154"

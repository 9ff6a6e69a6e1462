[package]
name = "hos_tla"
version = "0.1.0"
edition = "2021"
publish = false

[dependencies]
near-sdk = { version = "=5.24.1", default-features = false, features = ["non-contract-usage"] }

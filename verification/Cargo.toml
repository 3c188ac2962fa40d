[package]
name = "afterparty"
version = "0.1.0"
edition = "2021"
publish = false

[dependencies]
serde_json = "=1.0.151"
rust-crypto = "=0.2.36"

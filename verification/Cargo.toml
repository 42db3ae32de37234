[package]
name = "crypto_conditions"
version = "0.1.0"
edition = "2021"
publish = false

[dependencies]
crypto-hash = "*"

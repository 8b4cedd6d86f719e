[package]
name = "splurge"
version = "0.1.0"
edition = "2021"
publish = false

[dependencies]
anchor-lang = { version = "=0.31.2", features = ["init-if-needed"] }
anchor-spl = "=0.31.2"
pyth-solana-receiver-sdk = "=0.6.1"
spl-math = "=0.3.0"
tuktuk-program = "=0.4.2"

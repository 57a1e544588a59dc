[package]
name = "rain_loans"
version = "0.1.0"
edition = "2021"
publish = false

[dependencies]
bs58 = "*"
substreams = "*"
substreams-solana = "*"

[dev-dependencies]
serde_json = "*"

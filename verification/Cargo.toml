[package]
name = "pumpfun_client"
version = "0.1.0"
edition = "2021"
publish = false

[dependencies]
solana-sdk = "=2.1.21"
solana-program = "=2.1.21"
spl-token = "=7.0.0"
spl-associated-token-account = "=6.0.0"
serde = "1"
serde_json = "1"

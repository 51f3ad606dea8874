[package]
name = "solana-token"
version = "0.1.0"
edition = "2021"
publish = false

[dependencies]
solana-program = "1.18"
spl-token = { version = "3.5", features = ["no-entrypoint"] }

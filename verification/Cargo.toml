[package]
name = "perpetuals"
version = "0.1.0"
edition = "2021"
publish = false

[dependencies]
anchor-lang = "0.27.0"
anchor-spl = { version = "0.27.0", default-features = false, features = ["token", "mint"] }
pyth-sdk-solana = "0.7"
solana-program = "1"

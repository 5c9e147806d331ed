[package]
name = "amm_liquidity"
version = "0.1.0"
edition = "2021"
publish = false

[dependencies]
solana-sdk = "*"
solana-program = "*"
spl-token = "*"
spl-associated-token-account = "*"
serde = { version = "*", features = ["derive"] }
serde_json = "*"
anyhow = "*"
dotenv = "*"

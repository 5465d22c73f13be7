[package]
name = "solana_workshop"
version = "0.1.0"
edition = "2021"
publish = false

[dependencies]
anyhow = "1"
bincode = "1"
borsh = "*"
mpl-token-metadata = "*"
solana-compute-budget-interface = "*"
solana-sdk = { version = "*", default-features = false }
solana-system-interface = { version = "*", features = ["bincode"] }
spl-associated-token-account = "*"
spl-token = "*"

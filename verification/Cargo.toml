[package]
name = "remittance_stablecoin"
version = "0.1.0"
edition = "2021"
publish = false

[dependencies]
anchor-lang = "=1.2.2"
anchor-spl = { version = "=1.2.2", default-features = false, features = ["token", "token_2022", "token_2022_extensions", "solana-v3"] }
spl-token-metadata-interface = "=0.8.0"
spl-token-confidential-transfer-proof-extraction = "=0.5.1"

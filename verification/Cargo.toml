[package]
name = "hero_ledger"
version = "0.1.0"
edition = "2021"
publish = false

[dependencies]
solana-program = "*"
spl-token = "*"
spl-token-metadata = "*"
borsh = "*"

[package]
name = "permissioned_markets"
version = "0.1.0"
edition = "2021"
publish = false

[dependencies]
serum_dex = "=0.5.4"
solana-program = "=1.18.26"

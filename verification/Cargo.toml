[package]
name = "genesis_programs"
version = "0.1.0"
edition = "2021"
publish = false

[dependencies]
agave-feature-set = "~2.2"
bincode = "1.3.3"
solana-inline-spl = "~2.2"
solana-sdk = "~2.2"
solana-sdk-ids = "~2.2"

[package]
name = "spl_token_events"
version = "0.1.0"
edition = "2021"
publish = false

[dependencies]
bs58 = "*"
substreams = "*"
substreams-solana = "*"

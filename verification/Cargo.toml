[package]
name = "raydium_monitor"
version = "0.1.0"
edition = "2021"
publish = false

[dependencies]
solana-sdk = "*"
thiserror = "*"
borsh = "*"

[package]
name = "timelock_vault"
version = "0.1.0"
edition = "2021"
publish = false

[dependencies]
anchor-lang = "=1.2.1"
pinocchio = "=0.9.3"
pinocchio-system = "0.3.0"
pinocchio-token = "0.4.0"
pyth-solana-receiver-sdk = "=2.0.0"
shank = "=0.4.9"

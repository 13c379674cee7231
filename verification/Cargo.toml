[package]
name = "escrow"
version = "0.1.0"
edition = "2021"
publish = false

[dependencies]
pinocchio = "=0.12.0"
pinocchio-log = "=0.5.1"
pinocchio-system = "=0.7.0"
pinocchio-token = "=0.8.0"
solana-address = { version = "=2.9.0", features = ["curve25519"] }

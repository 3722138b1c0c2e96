[package]
name = "tipper"
version = "0.1.0"
edition = "2021"
publish = false

[dependencies]
anchor-lang = "=1.2.1"
solana-address = { version = "=2.9.0", features = ["curve25519"] }

[package]
name = "anchor_escrow"
version = "0.1.0"
edition = "2021"
publish = false

[dependencies]
anchor-lang = { version = "=1.2.1", features = ["derive"] }
anchor-spl = "=1.2.1"
spl-token = { version = "=9.0.0", features = ["no-entrypoint"] }
solana-pubkey = { version = "=3.0.0", features = ["curve25519"] }

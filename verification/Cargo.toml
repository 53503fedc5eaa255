[package]
name = "lockbox_governor"
version = "0.1.0"
edition = "2021"
publish = false

[dependencies]
anchor-lang = { version = "=0.29.0", features = ["init-if-needed"] }
anchor-spl = "=0.29.0"
solana-program = "=1.18.26"
spl-token = "=4.0.3"
wormhole-anchor-sdk = "=0.29.0-alpha.1"
wormhole-io = "=0.1.3"

[package]
name = "editions_core"
version = "0.1.0"
edition = "2021"
publish = false

[dependencies]
anchor-lang = "=1.2.1"
anchor-spl = "=1.2.1"
spl-pod = "=0.7.4"
spl-token-metadata-interface = "=0.8.0"
solana-pubkey = { version = "=4.4.0", features = ["curve25519"] }

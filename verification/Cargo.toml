[package]
name = "tubor_yield"
version = "0.1.0"
edition = "2021"
publish = false

[dependencies]
anchor-lang = { version = "=0.31.2", features = ["event-cpi", "init-if-needed"] }
anchor-spl = { version = "=0.31.2", default-features = false, features = ["token", "token_2022", "associated_token", "metadata"] }
mpl-token-metadata = "=5.1.1"
pyth-solana-receiver-sdk = "=2.0.0"
solana-clock = "=3.2.1"

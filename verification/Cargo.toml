[package]
name = "prize_sales"
version = "0.1.0"
edition = "2021"
publish = false

[dependencies]
anchor-lang = { version = "=1.2.1", features = ["init-if-needed"] }
anchor-spl = { version = "=1.2.1", default-features = false, features = ["associated_token", "token", "token_2022", "solana-v3"] }

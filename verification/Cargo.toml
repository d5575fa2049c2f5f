[package]
name = "token_exchange"
version = "0.1.0"
edition = "2021"
publish = false

[dependencies]
solana-program = "1.17"
spl-token = { version = "=4.0.0", features = ["no-entrypoint"] }
borsh = "0.10"
thiserror = "1.0"
anchor-lang = { version = "0.29.0", features = ["init-if-needed"] }
anchor-spl = { version = "0.29.0", default-features = false, features = ["token"] }

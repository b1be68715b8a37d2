[package]
name = "asset_vault"
version = "0.1.0"
edition = "2021"
publish = false

[dependencies]
anchor-lang = "0.31"
anchor-spl = { version = "0.31", default-features = false, features = ["token"] }
borsh = { version = "1", features = ["derive"] }
solana-program = "2"
spl-token = { version = "7", features = ["no-entrypoint"] }

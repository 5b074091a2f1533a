[package]
name = "vvs_sol_token_full"
version = "0.1.0"
edition = "2021"
publish = false

[dependencies]
spl-token = "*"
solana-program = "*"

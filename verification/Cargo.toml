[package]
name = "rndr"
version = "0.1.0"
edition = "2021"
publish = false

[dependencies]
solana-program = "*"
spl-token = "*"
spl-associated-token-account = "*"
thiserror = "*"
num-derive = "*"
num-traits = "*"

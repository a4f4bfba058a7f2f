[package]
name = "traction"
version = "0.1.0"
edition = "2021"
publish = false

[dependencies]
anchor-lang = "=0.24.2"
anchor-spl = "=0.24.2"
crate-token = { version = "=0.6.0", features = ["cpi"] }
num-traits = "=0.2.19"
solana-program = "=1.9.29"
spl-associated-token-account = "=1.0.5"
static-pubkey = "=1.0.3"
vipers = "=2.0.6"

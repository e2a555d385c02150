[package]
name = "graph_of_humanity"
version = "0.1.0"
edition = "2021"
publish = false

[dependencies]
sha2 = "=0.10.9"
anchor-lang = { version = "=0.29.0", features = ["init-if-needed"] }
anchor-spl = { version = "=0.29.0", default-features = false, features = ["token", "token_2022", "associated_token", "mint"] }
orao-solana-vrf = { version = "=0.4.0", default-features = false, features = ["cpi"] }

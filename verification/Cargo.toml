[package]
name = "fomo-contract"
version = "0.1.0"
edition = "2021"
publish = false

[dependencies]
anchor-lang = { version = "=0.29.0", features = ["init-if-needed"] }
anchor-spl = "=0.29.0"
mpl-core = "=0.7.2"
solana-program = "=1.18.26"
spl-token = "=4.0.3"

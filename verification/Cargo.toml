[package]
name = "mirror_contracts"
version = "0.1.0"
edition = "2021"
publish = false

[dependencies]
cosmwasm-std = "=0.15.2"
cosmwasm-storage = "=0.15.2"
terraswap = "=2.3.0"

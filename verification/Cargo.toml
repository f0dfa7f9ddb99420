[package]
name = "raw_migration"
version = "0.1.0"
edition = "2021"
publish = false

[dependencies]
anyhow = "=1.0.104"
cosmwasm-std = "=1.5.11"
cw20 = "=1.1.2"
cw20-base = { version = "=1.1.2", features = ["library"] }
cw-multi-test = "=0.20.1"
stake-cw20 = "=0.2.6"
wasmswap = "=1.1.2-beta"

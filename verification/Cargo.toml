[package]
name = "cw-vault-token"
version = "0.1.0"
edition = "2021"
publish = false

[dependencies]
cosmwasm-schema = "1"
cosmwasm-std = "1"
cw-asset = "3"
cw-storage-plus = "1"
cw-utils = "1"
cw20 = "1"
cw20-base = { version = "1", features = ["library"] }
osmosis-std = "0.22"
serde = { version = "1", default-features = false, features = ["derive"] }
thiserror = "1"

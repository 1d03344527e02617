[package]
name = "leveraged_pools"
version = "0.1.0"
edition = "2021"
publish = false

[dependencies]
chrono = "0.4"
cosmwasm-std = "0.16"
cw-storage-plus = "0.8"
cw20 = "0.8"
terraswap = "2.4"
schemars = "0.8"
serde = { version = "1", features = ["derive"] }
thiserror = "1"

[package]
name = "monsterra_bridge"
version = "0.1.0"
edition = "2021"
publish = false

[dependencies]
cosmwasm-std = "*"
cw-storage-plus = "*"
cosmwasm-schema = "*"

[package]
name = "white_whale"
version = "0.1.0"
edition = "2021"
publish = false

[dependencies]
cosmwasm-std = "0.16"
cosmwasm-storage = "0.16"
cosmwasm-bignumber = "2"
cw20 = "0.8"
cw2 = "0.8"
cw-storage-plus = "0.8"
cw-controllers = "0.8"
terra-cosmwasm = "2"
schemars = "0.8"
serde = { version = "1", default-features = false, features = ["derive"] }
protobuf = "2"

[package]
name = "cw_counter"
version = "0.1.0"
edition = "2021"
publish = false

[dependencies]
cosmwasm-std = "*"
cosmwasm-schema = "*"
cw2 = "*"
cw-storage-plus = "*"
serde = "*"
thiserror = "*"

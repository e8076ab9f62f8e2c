[package]
name = "token_wrapper"
version = "0.1.0"
edition = "2021"
publish = false

[dependencies]
base32 = "*"
cosmwasm-std = "1"
cosmwasm-schema = "1"
cw2 = "1"
cw20 = "1"
cw-storage-plus = "1"
cw-utils = "1"
sei-cosmwasm = "*"
hex = "*"
thiserror = "1"

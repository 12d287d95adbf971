[package]
name = "nitro-finality-gadget"
version = "0.1.0"
edition = "2021"
publish = false

[dependencies]
cosmwasm-schema = "2"
cosmwasm-std = "2"
cw-controllers = "2"
cw-storage-plus = "2"

[package]
name = "nft_registry"
version = "0.1.0"
edition = "2021"
publish = false

[dependencies]
sp-io = "*"
sp-core = "*"
sp-runtime = "*"
parity-scale-codec = "*"
frame-support = "*"
frame-system = "*"

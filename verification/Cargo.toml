[package]
name = "collectible_pallets"
version = "0.1.0"
edition = "2021"
publish = false

[dependencies]
frame-support = "*"
frame-system = "*"
sp-io = "*"
sp-runtime = "*"

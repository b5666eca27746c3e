[package]
name = "pallet_chainlink"
version = "0.1.0"
edition = "2021"
publish = false

[dependencies]
bounded-collections = "*"
parity-scale-codec = "*"
frame-support = "*"
frame-system = "*"
sp-runtime = "*"

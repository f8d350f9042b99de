[package]
name = "erc20"
version = "0.1.0"
edition = "2021"
publish = false

[dependencies]
num-traits = "0.2"
parity-scale-codec = { version = "1.3", features = ["derive"] }

[package]
name = "offchain-storage"
version = "0.1.0"
edition = "2021"
publish = false

[dependencies]
parity-scale-codec = { version = "3.7", features = ["derive"] }
scale-info = { version = "2.11", features = ["derive"] }
frame-support = "45"
frame-system = "45"
sp-std = "14"

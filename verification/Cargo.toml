[package]
name = "psp22"
version = "0.1.0"
edition = "2021"
publish = false

[dependencies]
ink = "=5.0.0"
ink_storage = "=5.0.0"
parity-scale-codec = { version = "=3.7.5", features = ["derive"] }
scale-info = { version = "=2.11.6", features = ["derive"] }

[package]
name = "vote"
version = "0.1.0"
edition = "2021"
publish = false

[dependencies]
ink = "=5.1.1"
ink_prelude = "=5.1.1"
parity-scale-codec = { version = "=3.7.5", features = ["derive"] }
scale-info = { version = "=2.11.6", features = ["derive"] }

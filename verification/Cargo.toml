[package]
name = "pizza_tipper"
version = "0.1.0"
edition = "2021"
publish = false

[dependencies]
parity-scale-codec = { version = "=3.7.5", features = ["derive"] }
ink = { version = "=4.3.0", features = ["std"] }

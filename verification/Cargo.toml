[package]
name = "kitties"
version = "0.1.0"
edition = "2021"
publish = false

[dependencies]
sp-io = "*"
parity-scale-codec = { version = "*", features = ["derive"] }
frame-support = "*"
frame-system = "*"
scale-info = { version = "*", features = ["derive"] }
log = "*"

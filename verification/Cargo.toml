[package]
name = "launchpad"
version = "0.1.0"
edition = "2021"
publish = false

[dependencies]
frame-support = "39"
frame-system = "39"
parity-scale-codec = { version = "3", features = ["derive", "max-encoded-len"] }
scale-info = { version = "2", features = ["derive"] }
sp-core = "35"
sp-runtime = "40"
sp-std = "14"

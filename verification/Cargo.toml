[package]
name = "price_fetch"
version = "0.1.0"
edition = "2021"
publish = false

[dependencies]
serde_json = { version = "1", features = ["arbitrary_precision"] }
parity-scale-codec = { version = "3", features = ["derive"] }
frame-support = "*"
frame-system = "*"
sp-core = "*"
sp-io = "*"
sp-runtime = "*"

[package]
name = "domains_core"
version = "0.1.0"
edition = "2021"
publish = false

[dependencies]
parity-scale-codec = { version = "*", features = ["derive"] }
scale-info = { version = "*", features = ["derive"] }
sp-core = "*"
sp-version = "*"
sp-runtime = "*"
sp-io = "*"
sp-std = "*"
sp-api = "*"
sp-inherents = "*"
sp-block-builder = "*"
sp-blockchain = "*"
tracing = "*"
prometheus-client = "*"

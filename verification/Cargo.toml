[package]
name = "tendermint_finality"
version = "0.1.0"
edition = "2021"
publish = false

[dependencies]
parity-scale-codec = { version = "3", features = ["derive"] }
parking_lot = "0.12"
log = "0.4"
futures = "0.3"
substrate-prometheus-endpoint = "*"
sp-runtime = "*"
sp-consensus = "*"
frame-support = "*"

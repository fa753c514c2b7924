[package]
name = "acala_test_support"
version = "0.1.0"
edition = "2021"
publish = false

[dependencies]
parity-scale-codec = "*"
sp-arithmetic = "*"
sp-weights = "*"
url = "*"
rand = "*"
tempfile = "*"
tokio = { version = "*", default-features = false, features = ["rt"] }
log = "*"
multiaddr = "*"

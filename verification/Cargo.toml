[package]
name = "logos_dev"
version = "0.1.0"
edition = "2021"
publish = false

[dependencies]
sp-core = "*"
sp-runtime = "*"
sp-keyring = "*"
sp-arithmetic = "*"
sp-weights = "*"
serde_json = "*"

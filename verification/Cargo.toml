[package]
name = "service_aura"
version = "0.1.0"
edition = "2021"
publish = false

[dependencies]
async-trait = "*"
futures = "*"
parity-scale-codec = "*"
sp-consensus-aura = "*"
sp-core = "*"
sp-runtime = "*"
sp-timestamp = "*"

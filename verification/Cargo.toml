[package]
name = "runtime-modules"
version = "0.1.0"
edition = "2021"
publish = false

[dependencies]
sp-runtime = "=49.0.0"
sp-arithmetic = "=29.0.0"
parity-scale-codec = "=3.7.5"
serde = { version = "=1.0.229", features = ["derive"] }

[dev-dependencies]
sp-crypto-hashing = "=0.1.0"

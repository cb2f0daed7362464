[package]
name = "liquidity_pool"
version = "0.1.0"
edition = "2021"
publish = false

[dependencies]
elrond-wasm = { version = "=0.18.2", features = ["derive"] }

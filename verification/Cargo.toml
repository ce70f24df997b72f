[package]
name = "wasm_bin"
version = "0.1.0"
edition = "2021"
publish = false

[dependencies]
serde_json = "*"
parity-wasm = "*"

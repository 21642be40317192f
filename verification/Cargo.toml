[package]
name = "go-owasm"
version = "0.1.0"
edition = "2021"
publish = false

[dependencies]
parity-wasm = "=0.41.0"
pwasm-utils = "=0.12.0"
wabt = "=0.9.1"
wasmer-clif-backend = "0.17"
wasmer-runtime-core = "=0.17.1"

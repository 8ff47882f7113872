[package]
name = "wasm_async_engine"
version = "0.1.0"
edition = "2021"
publish = false

[dependencies]
crossbeam = "0.8"
futures = "0.3"
wasi = "0.14"

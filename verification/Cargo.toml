[package]
name = "adaptive_inflate"
version = "0.1.0"
edition = "2021"
publish = false

[dependencies]
libdeflater = "*"
wasm-bindgen = "*"

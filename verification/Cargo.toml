[package]
name = "tetris_bridge"
version = "0.1.0"
edition = "2021"
publish = false

[dependencies]
wasm-bindgen = "=0.2.129"
console_error_panic_hook = "=0.1.7"
wee_alloc = "=0.4.5"

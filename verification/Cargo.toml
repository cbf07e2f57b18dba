[package]
name = "iris_lib"
version = "0.1.0"
edition = "2021"
publish = false

[dependencies]
hex = "=0.4.3"
palette = "=0.7.7"
fixed = "=1.31.0"
wasm-bindgen = "=0.2.129"
once_cell = "=1.21.4"
console_error_panic_hook = "=0.1.7"

[package]
name = "opfs_9p_server"
version = "0.1.0"
edition = "2021"
publish = false

[dependencies]
console_error_panic_hook = "=0.1.7"
futures = "=0.3.34"
tokio-fs-ext = "=0.7.8"
wasm-bindgen = "=0.2.129"
wasm-bindgen-futures = "=0.4.79"

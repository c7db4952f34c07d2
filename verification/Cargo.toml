[package]
name = "emulator"
version = "0.1.0"
edition = "2021"
publish = false

[dependencies]
array-init = "*"
console_error_panic_hook = "0.1"
console_log = "*"
fluvio-wasm-timer = "*"
log = "0.4"
rand = "0.8"
wasm-bindgen = "0.2"
wasm-bindgen-futures = "0.4"

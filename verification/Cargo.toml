[package]
name = "llguidance_wasm"
version = "0.1.0"
edition = "2021"
publish = false

[dependencies]
llguidance = "=1.9.1"
serde_json = "=1.0.154"
anyhow = "=1.0.104"
wasm-bindgen = "=0.2.129"
js-sys = "=0.3.106"
console_error_panic_hook = "=0.1.7"

[package]
name = "wasm_video"
version = "0.1.0"
edition = "2021"
publish = false

[dependencies]
wasm-bindgen = "*"
js-sys = "*"
serde = { version = "*", features = ["derive"] }
serde_json = "*"
console_error_panic_hook = "*"

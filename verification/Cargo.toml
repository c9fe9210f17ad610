[package]
name = "usage-of-namada-sdk"
version = "0.1.0"
edition = "2021"
publish = false

[dependencies]
base64 = "0.21"
serde = { version = "1", features = ["derive"] }
serde-wasm-bindgen = "0.5"
wasm-bindgen = "0.2"
wasm-bindgen-futures = "0.4"
async-trait = "0.1"

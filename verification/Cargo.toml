[package]
name = "rust_fetch"
version = "0.1.0"
edition = "2021"
publish = false

[dependencies]
serde = "1"
serde_json = "1"
serde_urlencoded = "0.7"
reqwest = { version = "0.12", default-features = false }
tokio = { version = "1", default-features = false, features = ["time", "rt"] }
wasm-bindgen = "0.2"
js-sys = "0.3"
wasm-bindgen-futures = "0.4"
serde-wasm-bindgen = "0.6"

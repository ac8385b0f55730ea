[package]
name = "draco_decoder"
version = "0.1.0"
edition = "2021"
publish = false

[dependencies]
cxx = "1.0"
js-sys = "0.3"
wasm-bindgen = "0.2"
wasm-bindgen-futures = "0.4"
web-sys = { version = "0.3", features = ["console"] }

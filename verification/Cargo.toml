[package]
name = "ws_client"
version = "0.1.0"
edition = "2021"
publish = false

[dependencies]
prost = "=0.14.4"
wasm-bindgen = "=0.2.129"
js-sys = "=0.3.106"
web-sys = { version = "=0.3.106", features = ["BinaryType", "MessageEvent", "WebSocket"] }
seed = "=0.3.3"

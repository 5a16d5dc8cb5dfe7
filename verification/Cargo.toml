[package]
name = "worker_streams"
version = "0.1.0"
edition = "2021"
publish = false

[dependencies]
bytes = "1"
futures-util = { version = "0.3", default-features = false }
http = "0.2"
http-body = "0.4"
js-sys = "0.3"
matchit = "0.4"
pin-project = "1"
serde_json = "1"
serde-wasm-bindgen = "0.5"
thiserror = "1"
url = "2"
wasm-bindgen = "0.2"
wasm-streams = "0.3"
web-sys = { version = "0.3", features = ["ReadableStream", "WritableStream", "TransformStream"] }
worker-kv = "0.6"
worker-sys = "*"

[package]
name = "cursor_stream"
version = "0.1.0"
edition = "2021"
publish = false

[dependencies]
futures-util = "=0.3.34"
idb = "=0.6.5"
log = "=0.4.34"
serde = { version = "=1.0.229", features = ["derive"] }
serde-wasm-bindgen = "=0.6.5"
wasm-bindgen = "=0.2.129"

[dev-dependencies]
web-sys = { version = "=0.3.106", features = ["IdbCursor", "IdbCursorWithValue", "IdbDatabase", "IdbTransaction"] }

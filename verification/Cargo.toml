[package]
name = "time_tracker"
version = "0.1.0"
edition = "2021"
publish = false

[dependencies]
chrono = "=0.4.45"
ulid = "=3.0.0"
seed = { version = "=0.10.0", features = ["routing"] }
cynic = "=3.14.0"
serde = { version = "=1.0.229", features = ["derive"] }
serde-wasm-bindgen = "=0.6.5"
web-sys = { version = "=0.3.106", features = ["Headers", "HtmlInputElement", "Request", "RequestInit", "Response", "Window"] }
wasm-bindgen = "=0.2.129"

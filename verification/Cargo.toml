[package]
name = "web_timers"
version = "0.1.0"
edition = "2021"
publish = false

[dependencies]
js-sys = { version = "=0.3.106", features = ["unsafe-eval"] }
wasm-bindgen = "=0.2.129"
web-sys = { version = "=0.3.106", features = ["Window", "WorkerGlobalScope"] }

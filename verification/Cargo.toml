[package]
name = "leptos_use"
version = "0.1.0"
edition = "2021"
publish = false

[dependencies]
cfg-if = "1"
js-sys = "0.3"
leptos = { version = "0.4", features = ["csr"] }
wasm-bindgen = "0.2"
web-sys = { version = "0.3", features = ["Event", "EventTarget", "MediaQueryList", "Window"] }

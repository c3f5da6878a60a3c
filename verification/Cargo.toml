[package]
name = "mdc_components"
version = "0.1.0"
edition = "2021"
publish = false

[dependencies]
yew = "0.20"
wasm-bindgen = "0.2"
js-sys = "0.3"
web-sys = { version = "0.3", features = ["CustomEvent", "Element", "Event"] }
serde = { version = "1", features = ["derive"] }

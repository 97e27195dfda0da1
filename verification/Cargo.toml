[package]
name = "chip_8"
version = "0.1.0"
edition = "2021"
publish = false

[dependencies]
rand = "0.8"
web-time = "1"
crossterm = { version = "0.27", features = ["event-stream"] }
async-std = "1"
serde = { version = "1", features = ["derive"] }
serde-wasm-bindgen = "0.6"
strum = { version = "0.26", features = ["derive"] }
wasm-bindgen = "0.2"
web-sys = { version = "0.3", features = ["console"] }

[package]
name = "console_log"
version = "0.1.0"
edition = "2021"
publish = false

[dependencies]
log = "0.4"
fern = "0.7"
wasm-bindgen = "0.2"
web-sys = { version = "0.3", features = ["console"] }

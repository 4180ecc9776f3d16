[package]
name = "image_convert"
version = "0.1.0"
edition = "2021"
publish = false

[dependencies]
image = "*"
resvg = "*"
serde = { version = "*", features = ["derive"] }
serde_json = "*"
thiserror = "*"
wasm-bindgen = "*"
js-sys = "*"
gloo-utils = "*"

[package]
name = "dotdotyew"
version = "0.1.0"
edition = "2021"
publish = false

[dependencies]
anyhow = "1"
serde = { version = "1", features = ["derive"] }
wasm-bindgen = "0.2"
yew = { version = "0.17", features = ["web_sys"] }
yew-router = { version = "0.14", features = ["web_sys"] }

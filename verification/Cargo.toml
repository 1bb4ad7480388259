[package]
name = "resume_site"
version = "0.1.0"
edition = "2021"
publish = false

[dependencies]
ratzilla = "0.2"
serde = { version = "1", features = ["derive"] }
toml = "0.9"
wasm-bindgen = "0.2"
js-sys = "0.3"
critical-section = "1.2"

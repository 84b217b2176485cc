[package]
name = "tempus_engine"
version = "0.1.0"
edition = "2021"
publish = false

[dependencies]
jsonlogic-fast = "=0.1.7"
serde_json = "=1.0.154"
serde = { version = "=1.0.229", features = ["derive"] }
chrono = "=0.4.45"
serde_yaml = "=0.9.34"
wasm-bindgen = "=0.2.130"
js-sys = "=0.3.107"
pyo3 = "=0.22.6"

[package]
name = "threshold_cred"
version = "0.1.0"
edition = "2021"
publish = false

[dependencies]
amcl_wrapper = "0.4.0"
failure = "0.1.8"
rand = "0.7"
serde = { version = "1", features = ["derive"] }
serde_json = "1"
wasm-bindgen = { version = "0.2", features = ["serde-serialize"] }

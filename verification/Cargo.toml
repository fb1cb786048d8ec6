[package]
name = "argonia"
version = "0.1.0"
edition = "2021"
publish = false

[dependencies]
argon2 = "=0.5.3"
rand_core = { version = "=0.6.4", features = ["getrandom"] }
subtle = "=2.6.1"
wasm-bindgen = "=0.2.129"

[package]
name = "denoise_voice_core"
version = "0.1.0"
edition = "2021"
publish = false

[dependencies]
deep_filter = "*"
ndarray = "0.15"
wasm-bindgen = "0.2"
jni = "0.21"

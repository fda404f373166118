[package]
name = "whisper_fallback"
version = "0.1.0"
edition = "2021"
publish = false

[dependencies]
base64 = "0.22"
log = "0.4"

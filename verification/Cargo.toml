[package]
name = "espeak_rs"
version = "0.1.0"
edition = "2021"
publish = false

[dependencies]
espeak-rs-sys = "*"
lazy_static = "1.4"
rodio = { version = "0.19", default-features = false }

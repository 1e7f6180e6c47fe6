[package]
name = "juice"
version = "0.1.0"
edition = "2021"
publish = false

[dependencies]
fyrox = { version = "=1.0.1", default-features = false }

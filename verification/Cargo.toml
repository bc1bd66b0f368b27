[package]
name = "dial_decisions"
version = "0.1.0"
edition = "2021"
publish = false

[dependencies]
rand = "0.8"
yaml-rust = "0.4"
native-dialog = "0.6"
iced = { version = "0.8", default-features = false, features = ["glow", "canvas", "image", "tokio"] }
iced_native = "0.9"

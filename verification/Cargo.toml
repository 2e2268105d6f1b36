[package]
name = "jimbot"
version = "0.1.0"
edition = "2021"
publish = false

[dependencies]
base64 = "0.21"
pretty-hex = "0.2"

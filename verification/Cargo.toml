[package]
name = "escpos"
version = "0.1.0"
edition = "2021"
publish = false

[dependencies]
encoding_rs = "*"
image = { version = "*", default-features = false, features = ["png", "jpeg"] }

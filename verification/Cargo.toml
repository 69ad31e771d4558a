[package]
name = "spy_engine"
version = "0.1.0"
edition = "2021"
publish = false

[dependencies]
base64 = "*"
image = { version = "*", default-features = false, features = ["png"] }

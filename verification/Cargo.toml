[package]
name = "totodoro"
version = "0.1.0"
edition = "2021"
publish = false

[dependencies]
image = "*"
tao = { version = "0.16", features = ["tray"] }

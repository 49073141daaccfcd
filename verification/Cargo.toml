[package]
name = "crisp"
version = "0.1.0"
edition = "2021"
publish = false

[dependencies]
ahash = "0.8"
gtk4 = { version = "*", features = ["v4_12"] }
gtk4-layer-shell = "*"
parking_lot = "0.12"
rune = "0.13"

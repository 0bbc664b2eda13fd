[package]
name = "cruzamento"
version = "0.1.0"
edition = "2021"
publish = false

[dependencies]
rand = "0.8.5"
speedy2d = { version = "1.12.0", default-features = false, features = ["windowing"] }

[package]
name = "imgproxy"
version = "0.1.0"
edition = "2021"
publish = false

[dependencies]
image = "0.25"
url = "2"
reqwest = { version = "0.12", default-features = false, features = ["blocking"] }

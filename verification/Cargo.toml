[package]
name = "rtps"
version = "0.1.0"
edition = "2021"
publish = false

[dependencies]
bit-set = "0.5"
bit-vec = "0.6"
bytes = "0.5"
log = "0.4"
speedy = "0.7"
tokio-util = { version = "0.3", features = ["codec"] }

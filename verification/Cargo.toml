[package]
name = "lunox"
version = "0.1.0"
edition = "2021"
publish = false

[dependencies]
http = "0.2"
hyper = { version = "0.14", default-features = false }
serde_json = "1"
serde_urlencoded = "0.7"

[package]
name = "uvc_backend"
version = "0.10.0"
edition = "2021"
publish = false

[dependencies]
flume = "0.10"
image = { version = "0.24", default-features = false }
uvc = "0.2"

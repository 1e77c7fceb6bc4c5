[package]
name = "http_error"
version = "0.1.0"
edition = "2021"
publish = false

[dependencies]
httparse = "1"
openssl = "0.10"
url = "2"

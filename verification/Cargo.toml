[package]
name = "request_engine"
version = "0.1.0"
edition = "2021"
publish = false

[dependencies]
encoding_rs = "0.8"
http = "0.1"
url = "1.7"

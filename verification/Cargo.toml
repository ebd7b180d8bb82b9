[package]
name = "cdumay_error_base64"
version = "0.1.0"
edition = "2021"
publish = false

[dependencies]
base64 = "0.22"
cdumay_core = "*"
serde-value = "0.7"

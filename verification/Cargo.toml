[package]
name = "grafton-ndi"
version = "0.12.0"
edition = "2021"
publish = false

[dependencies]
base64 = "0.22"
jpeg-encoder = "0.6"
png = "0.18"
thiserror = "2"
once_cell = "1"
tokio = { version = "1", default-features = false, features = ["rt"] }
async-std = "1"

[package]
name = "gpu_processor"
version = "0.1.0"
edition = "2021"
publish = false

[dependencies]
cudarc = { version = "=0.11.9", features = ["cuda-12040"] }
image = "=0.25.10"

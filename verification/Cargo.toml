[package]
name = "lotus_engine"
version = "0.1.0"
edition = "2021"
publish = false

[dependencies]
uuid = { version = "1", features = ["v4"] }
cgmath = "0.18"
glam = "*"
wgpu = { version = "*", default-features = false }

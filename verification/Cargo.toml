[package]
name = "tonic_buf_build"
version = "0.1.0"
edition = "2021"
publish = false

[dependencies]
serde = { version = "1", features = ["derive"] }
serde_yaml = "0.9"
uuid = { version = "1", features = ["v4"] }
scopeguard = "1"
tonic-build = "0.12"
prost-build = "0.13"

[package]
name = "camstream"
version = "0.1.0"
edition = "2021"
publish = false

[dependencies]
anyhow = "=1.0.104"
clap = { version = "=4.6.7", features = ["derive"] }
futures = "=0.3.34"
libcamera = "=0.7.0"
serde = { version = "=1.0.229", features = ["derive"] }
tokio = { version = "=1.54.1", features = ["full"] }
tokio-serde = { version = "=0.9.0", features = ["bincode"] }
tokio-util = { version = "=0.7.20", features = ["codec"] }
v4l2r = "=0.0.8"

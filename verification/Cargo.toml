[package]
name = "capture_core"
version = "0.1.0"
edition = "2021"
publish = false

[dependencies]
anyhow = "1"
gstreamer = "*"
gstreamer-app = "*"
gstreamer-audio = "*"
kstring = "=2.0.2"
once_cell = "1"
serde = { version = "1", features = ["derive"] }
serde_json = "1"

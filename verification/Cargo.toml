[package]
name = "stream_encoder"
version = "0.1.0"
edition = "2021"
publish = false

[dependencies]
gstreamer = "0.18"
gstreamer-app = "0.18"
gstreamer-video = "0.18"
image = "0.23"
anyhow = "1"

[package]
name = "frame_counter"
version = "0.1.0"
edition = "2021"
publish = false

[dependencies]
anyhow = "=1.0.104"
gstreamer = "0.23"
gstreamer-app = "0.23"
gstreamer-video = "0.23"

[package]
name = "wallpaper_core"
version = "0.1.0"
edition = "2021"
publish = false

[dependencies]
anyhow = "1"
cfg-if = "1"
gstreamer = "0.20"
gstreamer-app = "0.20"
gstreamer-video = "0.20"
pixels = "0.13"
tokio = { version = "1", features = ["full"] }
winit = "0.28"
winit_input_helper = "0.14"

[package]
name = "gst-thumbnailers"
version = "1.1.0"
edition = "2021"
publish = false

[dependencies]
clap = { version = "=4.6.7", features = ["derive"] }
gio = "=0.21.5"
glycin = "=3.0.8"
gstreamer = "=0.24.5"
gstreamer-app = "=0.24.5"
gstreamer-video = "=0.24.5"
image = { version = "=0.25.10", default-features = false }
kstring = "=2.0.2"

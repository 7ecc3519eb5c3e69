[package]
name = "streamer"
version = "0.1.0"
edition = "2021"
publish = false

[dependencies]
async-trait = "0.1"
bytes = "1"
gstreamer = "0.23"
gstreamer-app = "0.23"
gstreamer-video = "0.23"
thiserror = "1"
tokio = { version = "1", features = ["sync", "rt-multi-thread", "macros", "time"] }

[package]
name = "track_forward"
version = "0.1.0"
edition = "2021"
publish = false

[dependencies]
anyhow = "=1.0.104"
log = "=0.4.34"
tokio = { version = "=1.54.1", features = ["sync", "rt", "rt-multi-thread"] }
webrtc = "=0.11.0"

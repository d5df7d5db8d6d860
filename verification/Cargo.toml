[package]
name = "rsplayer_playback"
version = "0.1.0"
edition = "2021"
publish = false

[dependencies]
alsa = "*"
anyhow = "1"
core_affinity = "0.8"
log = "0.4"
sled = "0.34"
symphonia = "0.5"
thread-priority = "*"
tokio = { version = "1", features = ["rt", "sync"] }
ureq = "2"

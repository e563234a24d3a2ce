[package]
name = "ffmpeg_audio"
version = "0.1.0"
edition = "2021"
publish = false

[dependencies]
libc = "=0.2.191"
thiserror = "=2.0.21"
serde_json = "=1.0.154"
ffmpeg-next = "*"

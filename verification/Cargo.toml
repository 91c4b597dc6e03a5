[package]
name = "aves"
version = "0.1.0"
edition = "2021"
publish = false

[dependencies]
crossbeam = "*"
thiserror = "*"
cpal = "*"
ffmpeg-next = "*"

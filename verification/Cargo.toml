[package]
name = "screencapturekit"
version = "0.1.0"
edition = "2021"
publish = false

[dependencies]
futures-core = "0.3"
cpal = "*"
core-foundation = "*"
core-graphics = "*"
core-media-rs = "*"
screencapturekit-sys = "*"

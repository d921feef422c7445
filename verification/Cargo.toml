[package]
name = "goxlr_audio_helper"
version = "0.1.0"
edition = "2021"
publish = false

[dependencies]
anyhow = "*"
bounded-vec-deque = "*"
core-foundation = "*"
coreaudio-rs = "*"
coreaudio-sys = "*"
io-kit-sys = "*"

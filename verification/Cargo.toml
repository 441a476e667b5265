[package]
name = "playback"
version = "0.1.0"
edition = "2021"
publish = false

[dependencies]
alsa-sys = "*"
nix = "*"
dasp = { version = "*", features = ["signal"] }

[package]
name = "stroke_lab"
version = "0.1.0"
edition = "2021"
publish = false

[dependencies]
bevy = { version = "0.18", default-features = false }

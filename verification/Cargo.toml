[package]
name = "terrain_pyramid"
version = "0.1.0"
edition = "2021"
publish = false

[dependencies]
image = { version = "0.24", default-features = false }
bevy = { version = "0.9", default-features = false }

[package]
name = "ghost_maze"
version = "0.1.0"
edition = "2021"
publish = false

[dependencies]
bevy = { version = "0.9", default-features = false }
rand = "0.8"
lazy_static = "1"

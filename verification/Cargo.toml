[package]
name = "keyboard_graph"
version = "0.1.0"
edition = "2021"
publish = false

[dependencies]
bevy = { version = "0.12", default-features = false }
rand = "0.8"

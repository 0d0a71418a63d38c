[package]
name = "lyon_utils"
version = "0.1.0"
edition = "2021"
publish = false

[dependencies]
bevy = { version = "*", default-features = false, features = ["bevy_sprite"] }
lyon = "*"

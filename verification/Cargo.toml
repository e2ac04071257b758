[package]
name = "player_controller"
version = "0.1.0"
edition = "2021"
publish = false

[dependencies]
bevy = { version = "0.8", default-features = false, features = ["bevy_winit", "render", "x11"] }
bevy_rapier3d = { version = "0.16" }

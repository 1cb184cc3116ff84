[package]
name = "harvest"
version = "0.1.0"
edition = "2021"
publish = false

[dependencies]
bevy = { version = "0.9", default-features = false, features = ["bevy_asset", "bevy_winit", "render", "png", "x11"] }
bevy_rapier2d = "0.20"
fastrand = "1"
iyes_loopless = "0.9"

[package]
name = "grandstand_gauntlet"
version = "0.1.0"
edition = "2021"
publish = false

[dependencies]
bevy = { version = "0.9", default-features = false, features = ["bevy_asset", "bevy_winit", "render", "png", "x11"] }
bevy_rapier2d = { version = "0.19", default-features = false, features = ["dim2"] }
bevy-inspector-egui = { version = "0.14", default-features = false }
bevy-parallax = "0.3"
rand = "0.8"

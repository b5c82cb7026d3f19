[package]
name = "tourmaworld"
version = "0.1.0"
edition = "2021"
publish = false

[dependencies]
bevy = { version = "0.10", default-features = false, features = ["bevy_asset", "bevy_winit", "bevy_render", "bevy_core_pipeline", "bevy_sprite", "png", "x11"] }
bevy_rapier2d = "0.21"

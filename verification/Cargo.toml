[package]
name = "somble"
version = "0.1.0"
edition = "2021"
publish = false

[dependencies]
bevy = { version = "0.8", default-features = false, features = ["bevy_asset", "bevy_winit", "render", "png", "x11"] }
bevy_ecs_ldtk = "0.4"
bevy_rapier2d = "0.16"
iyes_loopless = "0.7"
pathfinding = "3"

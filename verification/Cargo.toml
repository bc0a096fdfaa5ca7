[package]
name = "my_blaster_runs_hot"
version = "0.1.0"
edition = "2021"
publish = false

[dependencies]
bevy = { version = "0.8", default-features = false, features = ["render", "png", "x11", "bevy_asset", "bevy_winit"] }
bevy_rapier2d = "0.16"
csv = "1"
serde = { version = "1", features = ["derive"] }
rand = "0.8"

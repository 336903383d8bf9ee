[package]
name = "tick_interpolation"
version = "0.1.0"
edition = "2021"
publish = false

[dependencies]
bevy = { version = "=0.16.1", default-features = false, features = ["std", "bevy_asset", "bevy_color", "bevy_core_pipeline", "bevy_log", "bevy_pbr", "bevy_render", "bevy_window"] }
bevy_rapier3d = { version = "=0.30.0", default-features = false, features = ["dim3"] }
bincode = { version = "=2.0.1", features = ["serde"] }
serde = { version = "=1.0.229", features = ["derive"] }

[package]
name = "rusted_fortress"
version = "0.1.0"
edition = "2021"
publish = false

[dependencies]
bevy = { version = "0.9", default-features = false, features = ["bevy_asset", "bevy_core_pipeline", "bevy_render", "bevy_sprite", "bevy_text", "bevy_ui", "bevy_winit", "png", "x11"] }
bevy_ecs_tilemap = "0.9"
bevy_egui = { version = "0.19", default-features = false }
int-enum = "0.5"
itertools = "0.10"
ndarray = "0.15"
noise = "0.8"
strum = { version = "0.24", features = ["derive"] }

[package]
name = "dash_ball"
version = "0.1.0"
edition = "2021"
publish = false

[dependencies]
bevy = { version = "=0.17.3", default-features = false, features = ["std", "bevy_state", "bevy_window", "bevy_asset", "bevy_color", "bevy_camera", "bevy_sprite", "bevy_text", "bevy_ui"] }
rand = "=0.9.5"

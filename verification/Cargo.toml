[package]
name = "character_controller"
version = "0.1.0"
edition = "2021"
publish = false

[dependencies]
bevy = { version = "=0.18.1", default-features = false, features = ["std", "bevy_pbr", "bevy_animation", "bevy_scene", "bevy_window", "bevy_gizmos", "keyboard", "mouse", "bevy_asset", "bevy_log", "multi_threaded"] }
avian3d = { version = "=0.5.0", default-features = false, features = ["3d", "f32", "parry-f32", "parallel", "bevy_scene"] }

[package]
name = "midgard"
version = "0.1.0"
edition = "2021"
publish = false

[dependencies]
rand = "=0.8.8"
bevy = { version = "=0.16.1", default-features = false, features = ["std", "bevy_state", "bevy_log", "bevy_color"] }
avian3d = { version = "=0.3.1", default-features = false, features = ["3d", "f32", "parry-f32"] }
serde = { version = "1", features = ["derive"] }
ron = "0.8"

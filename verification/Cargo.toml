[package]
name = "sprite_animator"
version = "0.1.0"
edition = "2021"
publish = false

[dependencies]
bevy = { version = "0.16", default-features = false, features = ["std", "bevy_asset", "bevy_sprite", "bevy_state"] }
bevy_kira_audio = { version = "0.23", default-features = false }
serde = { version = "1", features = ["derive"] }

[dev-dependencies]
bevy_time = "0.16"

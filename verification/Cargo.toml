[package]
name = "bevy_undo_redo"
version = "0.1.0"
edition = "2021"
publish = false

[dependencies]
bevy_ecs = { version = "0.15", default-features = false }

[package]
name = "game_library"
version = "0.1.0"
edition = "2021"
publish = false

[dependencies]
bevy = { version = "0.12", default-features = false }
bevy_ecs = "0.12"
tracing = "0.1"
tracing-subscriber = "0.3"
tracing-tracy = "0.10"

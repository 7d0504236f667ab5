[package]
name = "game_core"
version = "0.1.0"
edition = "2021"
publish = false

[dependencies]
bevy_app = "=0.5.0"
bevy_asset = "=0.5.1"
bevy_ecs = "=0.5.0"
bevy_tasks = "=0.5.0"
tracing = "=0.1.37"
tracing-attributes = "=0.1.23"

[dev-dependencies]
anyhow = "1"

[package]
name = "bevy_iced"
version = "0.1.0"
edition = "2021"
publish = false

[dependencies]
bevy_app = "0.18"
bevy_derive = "0.18"
bevy_ecs = "0.18"
bevy_input = "0.18"
bevy_render = "0.18"
bevy_window = "0.18"
iced_core = "0.14"
iced_runtime = "0.14"
iced_wgpu = "0.14"

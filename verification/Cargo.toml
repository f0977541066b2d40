[package]
name = "bevy"
version = "0.1.0"
edition = "2021"
publish = false

[dependencies]
bevy_app = "=0.1.3"
bevy_core = "=0.1.3"
bevy_input = "=0.1.3"
bevy_window = "=0.1.3"
bevy_render = "=0.1.3"
bevy_ui = "=0.1.3"
bevy_winit = "=0.1.3"
bevy_wgpu = "=0.1.3"
bevy_type_registry = "=0.1.3"
notify = "=5.0.0-pre.2"

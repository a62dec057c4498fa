[package]
name = "render_core"
version = "0.1.0"
edition = "2021"
publish = false

[dependencies]
wgpu = "0.16"
winit = "0.28"
cgmath = "0.18"
bytemuck = { version = "1", features = ["derive"] }
env_logger = "0.10"
log = "0.4"
instant = "0.1"

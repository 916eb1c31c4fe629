[package]
name = "platformer"
version = "0.1.0"
edition = "2021"
publish = false

[dependencies]
anyhow = "1"
bytemuck = "1"
env_logger = "0.8"
futures = "0.3"
image = "0.23"
wgpu = "0.8"
wgpu_glyph = "0.12"
winit = "0.25"

[package]
name = "wgsl-cli"
version = "0.1.0"
edition = "2021"
publish = false

[dependencies]
argh = "0.1"
bytemuck = { version = "1", features = ["derive"] }
env_logger = "0.9"
log = "0.4"
pollster = "0.2"
wgpu = "0.13"
winit = "0.26"

[package]
name = "bddatoms"
version = "0.1.0"
edition = "2021"
publish = false

[dependencies]
bytemuck = { version = "=1.25.2", features = ["derive"] }
env_logger = "=0.9.3"
glam = { version = "=0.20.5", features = ["bytemuck"] }
pollster = "=0.2.5"
wgpu = "=0.12.0"
winit = "=0.26.1"

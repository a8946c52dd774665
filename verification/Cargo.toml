[package]
name = "render_host"
version = "0.1.0"
edition = "2021"
publish = false

[dependencies]
image = { version = "=0.24.9", default-features = false, features = ["png"] }
bytemuck = { version = "=1.25.2", features = ["derive"] }
env_logger = { version = "=0.10.2", default-features = false }
pollster = "=0.3.0"
wgpu = { version = "=0.15.1", default-features = false, features = ["wgsl"] }
winit = { version = "=0.27.5", default-features = false, features = ["x11"] }

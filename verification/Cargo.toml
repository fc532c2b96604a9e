[package]
name = "sprint_the_game"
version = "0.1.0"
edition = "2021"
publish = false

[dependencies]
bytemuck = { version = "=1.25.2", features = ["derive"] }
glam = "=0.25.0"
image = { version = "=0.24.9", default-features = false, features = ["png"] }
pollster = "=0.3.0"
wgpu = { version = "=0.20.1", default-features = false, features = ["wgsl"] }
wgpu_text = "=0.8.8"
winit = { version = "0.30", default-features = false, features = ["rwh_06", "x11"] }

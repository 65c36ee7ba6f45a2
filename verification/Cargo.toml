[package]
name = "doodling_canvas"
version = "0.1.0"
edition = "2021"
publish = false

[dependencies]
base64 = "*"
image = { version = "*", default-features = false, features = ["png"] }
wgpu = "*"
winit = "*"
pollster = "*"
log = "*"
env_logger = "*"
bytemuck = { version = "*", features = ["derive"] }
futures-intrusive = "*"

[package]
name = "nimbus"
version = "0.1.0"
edition = "2021"
publish = false

[dependencies]
bytemuck = { version = "*", features = ["derive"] }
cgmath = "*"
pollster = "*"
wgpu = "*"
winit = "*"

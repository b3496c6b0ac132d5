[package]
name = "renderer"
version = "0.1.0"
edition = "2021"
publish = false

[dependencies]
bytemuck = "*"
glam = "*"
pollster = "*"
uuid = { version = "*", features = ["v4"] }
wgpu = "*"
winit = "*"

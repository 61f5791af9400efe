[package]
name = "luna"
version = "0.1.0"
edition = "2021"
publish = false

[dependencies]
wgpu = "*"
winit = "*"
pollster = "*"
image = { version = "*", default-features = false, features = ["png"] }
bytemuck = { version = "*", features = ["derive"] }

[package]
name = "ganvas"
version = "0.1.0"
edition = "2021"
publish = false

[dependencies]
ash = "0.38"
bytemuck = "1"
glutin = "*"
skia-safe = { version = "*", features = ["gl", "vulkan"] }
softbuffer = "*"
winit = "*"

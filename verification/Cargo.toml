[package]
name = "spright"
version = "0.1.0"
edition = "2021"
publish = false

[dependencies]
wgpu = "=22.1.0"
glam = "=0.34.1"
bytemuck = { version = "=1.25.2", features = ["derive"] }
rgb = "=0.8.53"

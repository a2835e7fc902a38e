[package]
name = "ascii_render"
version = "0.1.0"
edition = "2021"
publish = false

[dependencies]
anyhow = "1"
arboard = { version = "3", default-features = false }
bytemuck = { version = "1", features = ["derive"] }
crossterm = "0.28"
env_logger = "0.11"
glam = "0.29"
gltf = "1.4"
image = { version = "0.25", default-features = false, features = ["jpeg", "png", "bmp"] }
pollster = "0.4"
ratatui = "0.29"
tobj = "4"
wgpu = "23"

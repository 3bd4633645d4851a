[package]
name = "particle_sim"
version = "0.1.0"
edition = "2021"
publish = false

[dependencies]
bytemuck = { version = "1", features = ["derive"] }
cgmath = "0.18"
lazy_static = "1.4"
line_drawing = "1.0"
pcx = "0.2"
quadtree_rs = "0.1"
rand = "0.8"
raylib = "3.7"
wgpu = "0.16"
winit = "0.28"

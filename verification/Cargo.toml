[package]
name = "boids"
version = "0.1.0"
edition = "2021"
publish = false

[dependencies]
bytemuck = { version = "=1.25.2", features = ["derive"] }
egui = { version = "0.27", default-features = false, features = ["default_fonts"] }
egui-wgpu = { version = "0.27", default-features = false }
pollster = "0.3"
rand = "0.8"
wgpu = { version = "0.19", default-features = false, features = ["wgsl"] }

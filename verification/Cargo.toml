[package]
name = "lumina"
version = "0.1.0"
edition = "2021"
publish = false

[dependencies]
anyhow = "1"
bytemuck = { version = "1", features = ["derive"] }
egui = "0.29"
egui-wgpu = { version = "0.29", default-features = false }
egui-winit = { version = "0.29", default-features = false }
env_logger = "0.11"
glam = { version = "0.29", features = ["serde", "bytemuck"] }
hecs = "0.10"
log = "0.4"
parking_lot = "0.12"
pollster = "0.3"
rhai = "1"
ron = "0.8"
serde = { version = "1", features = ["derive"] }
wgpu = { version = "22", default-features = false, features = ["wgsl"] }
winit = { version = "0.30", default-features = false, features = ["rwh_06", "x11"] }

[package]
name = "pageview"
version = "0.1.0"
edition = "2021"
publish = false

[dependencies]
wgpu = "=0.16.3"
egui-winit = { version = "=0.22.0", default-features = false }
winit = { version = "=0.28.7", default-features = false, features = ["x11"] }
bytemuck = { version = "1", features = ["derive"] }

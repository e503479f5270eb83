[package]
name = "blue_engine_egui"
version = "0.1.0"
edition = "2021"
publish = false

[dependencies]
egui = { version = "=0.22.0", default-features = false }
egui-wgpu = { version = "=0.22.0", default-features = false }
egui-winit = { version = "=0.22.0", default-features = false }

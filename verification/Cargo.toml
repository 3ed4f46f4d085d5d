[package]
name = "qualia"
version = "0.1.0"
edition = "2021"
publish = false

[dependencies]
anyhow = "*"
egui = "*"
egui-wgpu = "*"
egui-winit = "*"
pollster = "*"
thiserror = "*"
tracing = "*"
tracing-subscriber = "*"
wgpu = "*"
winit = "*"

[package]
name = "fidget_vk"
version = "0.1.0"
edition = "2021"
publish = false

[dependencies]
anyhow = "1"
ash = "0.38"
ash-window = "0.13"
directories = "6"
egui = "0.31"
egui-ash-renderer = "0.8"
egui-winit = "0.31"
env_logger = "0.11"
glam = "0.29"
image = { version = "0.25", default-features = false, features = ["png"] }
log = "0.4"
raw-window-handle = "0.6"
serde = { version = "1", features = ["derive"] }
serde_json = "1"
winit = "0.30"

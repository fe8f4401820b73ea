[package]
name = "gpui_wgpu"
version = "0.1.0"
edition = "2021"
publish = false

[dependencies]
anyhow = "1"
ash = "0.38"
bytemuck = { version = "1", features = ["derive"] }
futures = "0.3"
log = "0.4"
raw-window-handle = "0.6"
wgpu = { version = "*", default-features = false, features = ["std", "vulkan", "wgsl"] }

[package]
name = "vulkan_opengl_demo"
version = "0.1.0"
edition = "2021"
publish = false

[dependencies]
ash = "0.38"
env_logger = "0.11"
khronos-egl = { version = "6", features = ["static", "no-pkg-config"] }
pollster = "0.4"
wgpu = { version = "*", default-features = false, features = ["std", "vulkan", "wgsl"] }
winit = "0.30"

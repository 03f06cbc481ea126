[package]
name = "vulkan_rust_test"
version = "0.1.0"
edition = "2021"
publish = false

[dependencies]
ash = "0.37"
num = "0.4"
winit = "0.28"
gpu-allocator = "0.25"
shaderc = "0.8"
glam = "0.24"
memoffset = "0.9"
winapi = { version = "0.3", features = ["windef", "libloaderapi"] }

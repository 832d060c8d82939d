[package]
name = "playground-wgpu"
version = "0.1.0"
edition = "2021"
publish = false

[dependencies]
bytemuck = "1"
cgmath = "0.17"
futures = "0.3"
glsl-to-spirv = "0.1"
image = "0.23"
wgpu = "0.5"
winit = "0.22"

[package]
name = "wgs"
version = "0.1.0"
edition = "2021"
publish = false

[dependencies]
wgpu = "=0.17.2"
wgpu-types = "=0.17.0"
futures = "=0.3.34"
bytemuck = "=1.25.2"
winit = "=0.28.7"

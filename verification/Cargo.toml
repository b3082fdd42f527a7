[package]
name = "hollow"
version = "0.1.0"
edition = "2021"
publish = false

[dependencies]
bytemuck = "*"
pollster = "*"
rand = "*"
take_mut = "*"
web-time = "*"
winit = "*"
wgpu = "*"

[package]
name = "blub"
version = "0.1.0"
edition = "2021"
publish = false

[dependencies]
bytemuck = "1"
cgmath = "0.17"
wgpu = "0.6"
winit = "0.22"

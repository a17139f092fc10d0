[package]
name = "obsidian_graphish"
version = "0.1.0"
edition = "2021"
publish = false

[dependencies]
ash = "0.38.0"
ash-window = "0.13.0"
winit = "0.30.12"
raw-window-handle = "0.6.2"
glam = "0.30.9"
bytemuck = "1"
sysinfo = "0.33"

[package]
name = "shaderwheels_logic"
version = "0.1.0"
edition = "2021"
publish = false

[dependencies]
wgpu = "=25.0.2"
pollster = "=0.4.0"

[package]
name = "yamc"
version = "0.1.0"
edition = "2021"
publish = false

[dependencies]
winit = "0.26"
wgpu = "0.12"
pollster = "0.2"
bytemuck = { version = "1", features = ["derive"] }
cgmath = "0.18"
log = "0.4"
simple_logger = "2"
thiserror = "1"

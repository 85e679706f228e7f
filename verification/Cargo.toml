[package]
name = "engine_core"
version = "0.1.0"
edition = "2021"
publish = false

[dependencies]
anyhow = "1"
env_logger = "0.11"
pollster = "0.3"
wgpu = "0.20"
winit = "0.30"

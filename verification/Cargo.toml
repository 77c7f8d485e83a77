[package]
name = "frame_core"
version = "0.1.0"
edition = "2021"
publish = false

[dependencies]
vulkano = "=0.29.0"
vulkano-win = "=0.29.0"
winit = "=0.26.1"
bytemuck = { version = "=1.25.2", features = ["derive"] }

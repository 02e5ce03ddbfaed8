[package]
name = "camera_pipeline"
version = "0.1.0"
edition = "2021"
publish = false

[dependencies]
rayon = "=1.12.0"
flume = "=0.11.1"
bytemuck = { version = "=1.25.2", features = ["derive"] }
nokhwa = "=0.10.11"
wgpu = "=30.0.1"

[package]
name = "voxel_engine"
version = "0.1.0"
edition = "2021"
publish = false

[dependencies]
anyhow = "1"
bytemuck = { version = "1", features = ["derive"] }
env_logger = "0.11"
futures = "0.3"
glam = "*"
log = "0.4"
noise = "*"
thiserror = "1"
wgpu = "22"
winit = { version = "0.30", default-features = false, features = ["x11", "rwh_06"] }

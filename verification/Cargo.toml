[package]
name = "connecting_dots"
version = "0.1.0"
edition = "2021"
publish = false

[dependencies]
anyhow = "1"
bytemuck = { version = "1", features = ["derive"] }
clap = { version = "4", features = ["derive"] }
env_logger = "0.11"
image = "0.25"
libpulse-binding = "2"
log = "0.4"
pollster = "0.4"
rand = "0.9"
serde = { version = "1", features = ["derive"] }
serde_json = "1"
wgpu = "26"
winit = "0.30"

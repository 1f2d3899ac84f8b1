[package]
name = "wgpu_openxr_example"
version = "0.1.0"
edition = "2021"
publish = false

[dependencies]
wgpu = "*"
wgpu-hal = "*"
openxr = { version = "*", default-features = false, features = ["loaded"] }
ash = "*"
glam = "*"
winit = "*"
bytemuck = { version = "*", features = ["derive"] }
clap = { version = "*", features = ["derive"] }
futures = "*"
log = "*"
anyhow = "*"

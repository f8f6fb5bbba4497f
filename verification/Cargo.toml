[package]
name = "rust_moteur_3d"
version = "0.1.0"
edition = "2021"
publish = false

[dependencies]
glam = "0.25"
wgpu = "0.19"
image = { version = "0.24", default-features = false, features = ["png", "jpeg"] }
bytemuck = { version = "1", features = ["derive"] }
pollster = "0.3"
serde = { version = "1", features = ["derive"] }
serde_json = "1"

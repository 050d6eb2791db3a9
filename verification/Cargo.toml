[package]
name = "shader_art_rs"
version = "0.1.0"
edition = "2021"
publish = false

[dependencies]
anyhow = "1"
bytemuck = { version = "1", features = ["derive"] }
clap = { version = "4", features = ["cargo"] }
env_logger = { version = "0.11", default-features = false }
futures-intrusive = "0.5"
gif = "0.13"
pollster = "0.3"
spinoff = "0.8"
wgpu = { version = "22", default-features = false, features = ["wgsl"] }

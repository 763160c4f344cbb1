[package]
name = "iftch2d"
version = "0.1.0"
edition = "2021"
publish = false

[dependencies]
wgpu = "22"
winit = "0.30"
anyhow = "1"

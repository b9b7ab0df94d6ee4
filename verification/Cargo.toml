[package]
name = "gpu_image"
version = "0.1.0"
edition = "2021"
publish = false

[dependencies]
image = "0.23"
gfx = "0.18"
glam = "*"
mint = "*"

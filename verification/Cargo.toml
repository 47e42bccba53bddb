[package]
name = "texture_upload"
version = "0.1.0"
edition = "2021"
publish = false

[dependencies]
gfx-hal = "0.5"
image = { version = "0.23", default-features = false, features = ["png"] }
font-kit = "*"
pathfinder_geometry = "0.5"
winit = "0.28"

[package]
name = "renderloop"
version = "0.1.0"
edition = "2021"
publish = false

[dependencies]
vulkano = "0.35"
vulkano-shaders = "0.35"
winit = { version = "0.30", default-features = false, features = ["x11", "rwh_06"] }

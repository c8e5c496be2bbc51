[package]
name = "rustcraft"
version = "0.1.0"
edition = "2021"
publish = false

[dependencies]
nalgebra = { version = "=0.35.0", default-features = false, features = ["std"] }
winit = "=0.22.2"
vulkano = "=0.19.0"
vulkano-win = "=0.19.0"
# Not used directly: vulkano 0.19.0 asks for vk-sys 0.5.2 or later and does not
# compile against 0.5.3, so the version is held here.
vk-sys = "=0.5.2"

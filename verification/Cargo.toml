[package]
name = "gpu_demos"
version = "0.1.0"
edition = "2021"
publish = false

[dependencies]
cocoa = "*"
metal = "*"
objc = "*"
rand = "*"
winit = "*"

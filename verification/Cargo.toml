[package]
name = "ember"
version = "0.1.0"
edition = "2021"
publish = false

[dependencies]
winit = "=0.27.5"
wgpu = "=0.15.1"
futures = "0.3"
log = "0.4"

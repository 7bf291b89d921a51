[package]
name = "window_bridge"
version = "0.1.0"
edition = "2021"
publish = false

[dependencies]
env_logger = "*"
log = "0.4"
winit = "0.28"

[package]
name = "frame_controller"
version = "0.1.0"
edition = "2021"
publish = false

[dependencies]
gfx-hal = "*"
nalgebra-glm = "*"
log = "*"
env_logger = "*"

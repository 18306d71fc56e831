[package]
name = "koholint"
version = "0.1.0"
edition = "2021"
publish = false

[dependencies]
log = "*"
env_logger = "*"
glfw = "*"
pollster = "*"

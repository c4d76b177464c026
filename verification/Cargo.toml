[package]
name = "lattice"
version = "0.1.0"
edition = "2021"
publish = false

[dependencies]
ash = "0.38"
gpu-allocator = { version = "0.27", default-features = false, features = ["vulkan"] }
jni = "0.21"
log = "0.4"
env_logger = "0.11"

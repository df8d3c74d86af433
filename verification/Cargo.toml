[package]
name = "ellipsoid_mesh"
version = "0.1.0"
edition = "2021"
publish = false

[dependencies]
bevy_math = "=0.14.2"
wgpu = "=30.0.1"

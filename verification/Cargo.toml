[package]
name = "brep_approx"
version = "0.1.0"
edition = "2021"
publish = false

[dependencies]
anyhow = "1"
num-traits = "0.2"
parry3d-f64 = "0.9"
pollster = "0.3"
thiserror = "1"
wgpu = "22"
winit = "0.30"

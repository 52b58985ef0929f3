[package]
name = "gpu_dispatch"
version = "0.1.0"
edition = "2021"
publish = false

[dependencies]
wgpu = "=0.17.2"
pollster = "=0.3.0"
futures-intrusive = "=0.5.0"
rand = "=0.8.8"
rayon = "=1.12.0"

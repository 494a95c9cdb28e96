[package]
name = "wilupgu"
version = "0.1.0"
edition = "2021"
publish = false

[dependencies]
bytemuck = "1"
wgpu = "0.19"
cudarc = { version = "0.19", default-features = false, features = ["std", "driver", "cublas", "nvrtc", "dynamic-loading", "cuda-12080"] }
futures-intrusive = "0.5"
pollster = "0.3"

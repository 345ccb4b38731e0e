[package]
name = "rs_wgpu_cube"
version = "0.1.0"
edition = "2021"
publish = false

[dependencies]
wgpu = { version = "=0.19.4", default-features = false, features = ["wgsl"] }
futures = "=0.3.34"
winit = { version = "0.30", default-features = false, features = ["rwh_06", "x11"] }

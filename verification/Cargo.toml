[package]
name = "nexir"
version = "0.1.0"
edition = "2021"
publish = false

[dependencies]
bytemuck = { version = "1", features = ["derive"] }
d3d12 = "0.19"
dashmap = "5"
half = "2"
log = "0.4"
lru = "0.12"
num_cpus = "1"
wgpu = "0.19"
wgpu-hal = "0.19"
winapi = { version = "0.3", features = ["d3d12", "dxgiformat", "dxgitype", "handleapi"] }

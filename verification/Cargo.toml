[package]
name = "shader_paper"
version = "0.1.0"
edition = "2021"
publish = false

[dependencies]
clap = { version = "=4.6.7", features = ["derive"] }
rustfft = "=6.4.1"
bytemuck = "=1.25.2"
pollster = "=0.3.0"
raw-window-handle = "=0.5.2"
wgpu = "=0.17.2"
smithay-client-toolkit = { version = "=0.18.1", default-features = false }
wayland-client = { version = "=0.31.15", features = ["system", "dlopen"] }
libpulse-binding = "=2.30.1"
libpulse-simple-binding = "=2.29.0"

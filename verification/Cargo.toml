[package]
name = "wlrs"
version = "0.1.0"
edition = "2021"
publish = false

[dependencies]
wgpu = "=30.0.1"
image = { version = "=0.25.10", default-features = false, features = ["gif", "webp", "png", "jpeg"] }
bincode = { version = "=2.0.1", features = ["derive"] }
serde = { version = "=1.0.229", features = ["derive"] }
toml = "=1.1.7"
clap = { version = "=4.6.7", features = ["derive"] }
directories = "=6.0.0"
epoll = "=4.4.0"
pollster = "=1.0.1"
rand = "=0.10.3"
raw-window-handle = "=0.6.2"
smithay-client-toolkit = { version = "=0.21.1", default-features = false }
wayland-client = { version = "=0.31.15", features = ["system", "dlopen"] }
bytemuck = "=1.25.2"

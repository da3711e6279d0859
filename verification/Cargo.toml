[package]
name = "niri_waybar"
version = "0.1.0"
edition = "2021"
publish = false

[dependencies]
anyhow = "1"
async-channel = "2"
niri-ipc = "*"
serde = { version = "1", features = ["derive"] }
waybar-cffi = "*"

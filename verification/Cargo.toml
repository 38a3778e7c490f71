[package]
name = "vk_rs"
version = "0.1.0"
edition = "2021"
publish = false

[dependencies]
ash = "0.38"
glam = "*"
optick = "1"
png = "0.17"
raw-window-handle = "0.5"
winit = "0.28"

[package]
name = "rviv"
version = "0.1.0"
edition = "2021"
publish = false

[dependencies]
anyhow = "1"
ash = "0.38"
ash-window = "0.13"
bytemuck = { version = "1", features = ["derive", "extern_crate_alloc"] }
clap = { version = "4", features = ["derive"] }
image = { version = "0.25", default-features = false, features = ["bmp", "gif", "ico", "jpeg", "png", "tiff", "webp"] }
raw-window-handle = "0.6"
walkdir = "2"
winit = "0.29"
x11rb = { version = "0.13", features = ["image"] }

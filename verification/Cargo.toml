[package]
name = "render_kit"
version = "0.1.0"
edition = "2021"
publish = false

[dependencies]
cgmath = "=0.18.0"
egui = "=0.16.1"
egui_glow = { version = "=0.16.0", default-features = false, features = ["winit", "epi", "default_fonts"] }
glow = "=0.11.2"
glutin = "=0.28.0"
image = { version = "=0.24.9", default-features = false, features = ["png"] }
obj-rs = "=0.7.4"

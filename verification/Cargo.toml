[package]
name = "scene_editor"
version = "0.1.0"
edition = "2021"
publish = false

[dependencies]
bytemuck = "1"
color-eyre = "0.6"
egui = "0.22"
egui_glow = { version = "0.22", features = ["winit"] }
glow = "0.12"
glutin = "0.30"
glutin-winit = "0.3"
nalgebra-glm = "0.18"
raw-window-handle = "0.5"
tobj = "4"
tracing = "0.1"
tracing-subscriber = "0.3"
winit = "0.28"
zune-png = "0.4"

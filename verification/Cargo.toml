[package]
name = "foxtail"
version = "0.1.0"
edition = "2021"
publish = false

[dependencies]
glow = "=0.12.3"
log = "=0.4.34"
pretty_env_logger = "=0.5.0"
puffin = "=0.16.0"
raw-gl-context = "=0.1.2"
raw-window-handle = "=0.3.4"
winit = "=0.28.7"
winit_input_helper = "=0.14.1"
egui = "=0.22.0"
egui_glow = { version = "=0.22.0", features = ["winit"] }

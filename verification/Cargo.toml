[package]
name = "eframe_native"
version = "0.1.0"
edition = "2021"
publish = false

[dependencies]
egui = { version = "0.24", default-features = false }
egui-winit = { version = "0.24", default-features = false, features = ["x11"] }
egui_glow = { version = "0.24", default-features = false }
glow = "0.12"
glutin = { version = "0.30", default-features = false, features = ["egl", "glx", "x11"] }
glutin-winit = { version = "0.3", default-features = false, features = ["egl", "glx", "x11"] }
log = "0.4"
parking_lot = "0.12"
raw-window-handle = "0.5"
winit = { version = "0.28", default-features = false, features = ["x11"] }

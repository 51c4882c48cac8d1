[package]
name = "yowu_selkirk"
version = "0.1.0"
edition = "2021"
publish = false

[dependencies]
btleplug = "0.11"
egui = "0.22"
egui_glow = "0.22"
glutin = "0.30"
glutin-winit = "0.3"
raw-window-handle = "0.5"
tokio = { version = "1", features = ["macros", "rt-multi-thread", "sync", "time"] }
winit = "0.28"

[package]
name = "workflow-ide-framework"
version = "0.1.0"
edition = "2021"
publish = false

[dependencies]
eframe = { version = "=0.34.3", default-features = false, features = ["default_fonts", "glow", "x11"] }
egui_dock = "=0.19.1"
tracing = "=0.1.44"
tracing-appender = "=0.2.5"
tracing-subscriber = "=0.3.23"
winit = { version = "=0.30.13", default-features = false, features = ["rwh_06", "x11"] }
raw-window-handle = "=0.6.2"

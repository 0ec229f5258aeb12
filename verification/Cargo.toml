[package]
name = "teleprompter"
version = "0.1.0"
edition = "2021"
publish = false

[dependencies]
winit = { version = "=0.29.15", default-features = false, features = ["rwh_06", "x11"] }
egui-winit = { version = "=0.26.2", default-features = false, features = ["x11"] }
pollster = "=0.3.0"

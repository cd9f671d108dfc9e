[package]
name = "camera_tool"
version = "0.1.0"
edition = "2021"
publish = false

[dependencies]
serde = { version = "=1.0.229", features = ["derive"] }
serde_json = "=1.0.154"
thiserror = "=2.0.21"
directories = "=6.0.0"
sysinfo = "=0.40.1"
glam = "=0.34.2"
eframe = { version = "*", default-features = false, features = ["default_fonts", "glow", "x11"] }
egui-notify = "*"
dll-syringe = "*"
futures = "*"
smol = "*"

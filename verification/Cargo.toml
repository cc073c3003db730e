[package]
name = "egui-gizmo"
version = "0.1.0"
edition = "2021"
publish = false

[dependencies]
egui = { version = "=0.27.2", default-features = false }
glam = { version = "=0.27.0", features = ["mint"] }
mint = "=0.5.9"

[package]
name = "soyboy"
version = "0.1.0"
edition = "2021"
publish = false

[dependencies]
rand = "0.8"
num = "0.4"
egui_extras = { version = "0.19", features = ["image"] }
egui_glow = { version = "0.19", features = ["winit"] }
glutin = "0.29"

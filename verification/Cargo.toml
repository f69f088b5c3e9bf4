[package]
name = "star_editor"
version = "0.1.0"
edition = "2021"
publish = false

[dependencies]
eframe = { version = "0.24", default-features = false, features = ["default_fonts", "glow", "x11"] }
egui = "0.24"
image = "0.24"
ron = "0.8"
serde = { version = "1", features = ["derive"] }

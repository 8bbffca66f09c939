[package]
name = "disktree_ui"
version = "0.1.0"
edition = "2021"
publish = false

[dependencies]
egui = "*"
eframe = { version = "*", default-features = false, features = ["default_fonts", "glow", "x11"] }
raw-window-handle = "0.6"

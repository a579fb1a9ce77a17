[package]
name = "ascii_level_editor"
version = "0.1.0"
edition = "2021"
publish = false

[dependencies]
csv = "1"
eframe = { version = "0.22", default-features = false, features = ["default_fonts", "glow"] }
image = { version = "0.24", default-features = false, features = ["ico"] }

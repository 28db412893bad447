[package]
name = "secret_store"
version = "0.1.0"
edition = "2021"
publish = false

[dependencies]
sqlite = { version = "*", features = ["bundled"] }
magic-crypt = "3"
eframe = { version = "0.23", default-features = false, features = ["default_fonts", "glow", "x11"] }

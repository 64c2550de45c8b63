[package]
name = "gl_programs"
version = "0.1.0"
edition = "2021"
publish = false

[dependencies]
eframe = { version = "*", default-features = false, features = ["glow", "x11"] }
bevy_color = { version = "*", default-features = false, features = ["std"] }
strum = { version = "*", features = ["derive"] }

[package]
name = "overwatch"
version = "0.1.0"
edition = "2021"
publish = false

[dependencies]
chrono = "0.4"
eframe = { version = "*", default-features = false, features = ["glow", "default_fonts"] }
image = { version = "*", default-features = false, features = ["png"] }
xcap = "*"

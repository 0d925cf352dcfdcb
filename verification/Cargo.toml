[package]
name = "progression"
version = "0.1.0"
edition = "2021"
publish = false

[dependencies]
bevy = { version = "0.16", default-features = false, features = ["bevy_ui", "bevy_window", "default_font", "std"] }

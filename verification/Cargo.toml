[package]
name = "framepace"
version = "0.1.0"
edition = "2021"
publish = false

[dependencies]
bevy = { version = "0.15", default-features = false, features = ["bevy_render", "bevy_window", "bevy_winit", "multi_threaded", "x11"] }
spin_sleep = "1"

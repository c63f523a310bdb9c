[package]
name = "tale_rpg"
version = "0.1.0"
edition = "2021"
publish = false

[dependencies]
ggez = { version = "0.9", default-features = false }
nalgebra = { version = "0.32", default-features = false, features = ["std"] }
winit = { version = "0.28", default-features = false, features = ["x11"] }

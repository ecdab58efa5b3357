[package]
name = "ashwend_client"
version = "0.1.0"
edition = "2021"
publish = false

[dependencies]
egui = { version = "0.33", default-features = false }
bevy = { version = "0.18", default-features = false, features = ["std"] }

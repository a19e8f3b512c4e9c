[package]
name = "mass_props"
version = "0.1.0"
edition = "2021"
publish = false

[dependencies]
bevy = { version = "0.12", default-features = false }
parry2d = "0.13"
parry3d = "0.13"

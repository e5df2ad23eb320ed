[package]
name = "dodge_fireball"
version = "0.1.0"
edition = "2021"
publish = false

[dependencies]
rand = "0.8"
bevy_pkv = "0.10"

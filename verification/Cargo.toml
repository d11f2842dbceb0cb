[package]
name = "asteroids"
version = "0.1.0"
edition = "2021"

[dependencies]
ggez = { version = "0.8", default-features = false }
rand = "=0.8.8"

[package]
name = "maz80emu"
version = "0.1.0"
edition = "2021"
publish = false

[dependencies]
strum = { version = "0.26", features = ["derive"] }

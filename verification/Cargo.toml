[package]
name = "bevy_ehttp"
version = "0.1.0"
edition = "2021"
publish = false

[dependencies]
crossbeam-channel = "*"
ehttp = "*"
serde = { version = "*", features = ["derive"] }
serde_json = "*"

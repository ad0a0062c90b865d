[package]
name = "blitz"
version = "0.1.0"
edition = "2021"
publish = false

[dependencies]
evdev = "0.12"
image = { version = "0.25", default-features = false, features = ["png"] }
serde = { version = "1", features = ["derive"] }
serde_json = "1"
tokio = { version = "1", features = ["time"] }

[package]
name = "screencrab"
version = "0.1.0"
edition = "2021"
publish = false

[dependencies]
serde = { version = "1", features = ["derive"] }
serde_json = "1"
chrono = "0.4"
tokio = { version = "1", features = ["process", "rt-multi-thread", "macros", "sync", "time"] }
arboard = "3"
image = { version = "0.24", default-features = false, features = ["png", "jpeg"] }
webbrowser = "0.8"

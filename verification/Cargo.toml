[package]
name = "soundboard"
version = "0.1.0"
edition = "2021"
publish = false

[dependencies]
anyhow = "1"
cpal = "0.15"
crossbeam-channel = "0.5"
global-hotkey = "0.6"
parking_lot = "0.12"
rodio = "0.19"
serde = { version = "1", features = ["derive"] }
uuid = { version = "1", features = ["v4"] }

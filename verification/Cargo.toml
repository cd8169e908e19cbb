[package]
name = "timershift"
version = "0.1.0"
edition = "2021"

[dependencies]
tauri = { version = "2", default-features = false, features = ["tray-icon", "image-png"] }

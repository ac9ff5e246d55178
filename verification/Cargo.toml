[package]
name = "desktop_config"
version = "0.1.0"
edition = "2021"
publish = false

[dependencies]
tauri-plugin-window-state = "2"

[package]
name = "tray_shell"
version = "0.1.0"
edition = "2021"
publish = false

[dependencies]
tauri = { version = "2", features = ["tray-icon"], default-features = false }
tauri-plugin-global-shortcut = "2"

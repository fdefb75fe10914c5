[package]
name = "hotkey_capture"
version = "0.1.0"
edition = "2021"
publish = false

[dependencies]
arboard = { version = "=3.7.0", default-features = false }
global-hotkey = "=0.8.0"
tauri = { version = "=2.12.5", default-features = false }
tauri-plugin-global-shortcut = "=2.4.1"

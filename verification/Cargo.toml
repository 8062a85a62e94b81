[package]
name = "opencami"
version = "0.1.0"
edition = "2021"
publish = false

[dependencies]
log = "0.4"
tauri = { version = "2", default-features = false, features = ["tray-icon"] }
tauri-plugin-autostart = "2"
tauri-plugin-log = "2"
url = "2"
uuid = { version = "1", features = ["v4"] }

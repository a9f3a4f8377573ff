[package]
name = "paste_output"
version = "0.1.0"
edition = "2021"
publish = false

[dependencies]
arboard = { version = "3", default-features = false }
log = "0.4"
serde_json = "1"
tauri = { version = "2", default-features = false, features = ["tray-icon", "image-png"] }
objc2 = "0.6"

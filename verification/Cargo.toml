[package]
name = "release_channels"
version = "0.1.0"
edition = "2021"
publish = false

[dependencies]
serde = { version = "1", features = ["derive"] }
serde_json = "1"
url = "2"
thiserror = "2"
tauri = { version = "2", default-features = false }
tauri-plugin-updater = { version = "2", default-features = false }
tauri-plugin-process = "2"

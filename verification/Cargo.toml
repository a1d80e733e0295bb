[package]
name = "plugin_runtime"
version = "0.1.0"
edition = "2021"
publish = false

[dependencies]
libloading = "=0.8.9"
zip = { version = "=2.6.1", default-features = false, features = ["deflate"] }
serde = { version = "=1.0.229", features = ["derive"] }
serde_json = "=1.0.154"
log = "=0.4.34"
tauri = { version = "2", default-features = false, features = ["wry", "tray-icon"] }
tokio = { version = "1", features = ["rt", "sync"] }

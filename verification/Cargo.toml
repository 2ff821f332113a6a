[package]
name = "codexmeter"
version = "0.1.0"
edition = "2021"
publish = false

[dependencies]
serde = { version = "1", features = ["derive"] }
serde_json = "1"
tokio = { version = "1", features = ["process", "io-util", "sync", "time", "macros", "rt"] }
tauri = { version = "2", default-features = false, features = ["wry", "tray-icon"] }

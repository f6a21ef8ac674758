[package]
name = "flow"
version = "0.1.0"
edition = "2021"
publish = false

[dependencies]
dirs = "6"
env_logger = { version = "0.11", default-features = false }
log = "0.4"
serde = { version = "1", features = ["derive"] }
serde_json = "1"
tauri = { version = "2", default-features = false }
tauri-plugin-global-shortcut = "2"
tokio = { version = "1", features = ["sync", "time", "rt", "process", "io-util"] }

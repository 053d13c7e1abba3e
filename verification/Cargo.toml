[package]
name = "secure_mode"
version = "0.1.0"
edition = "2021"
publish = false

[dependencies]
jni = "0.21"
log = "0.4"
serde = { version = "1", features = ["derive"] }
tauri = { version = "2", default-features = false }
tauri-plugin-log = { version = "2", default-features = false }

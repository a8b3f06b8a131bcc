[package]
name = "buzz_policy"
version = "0.1.0"
edition = "2021"
publish = false

[dependencies]
serde_json = "1"
tauri = { version = "2", default-features = false, features = ["wry"] }
webkit2gtk = { version = "2.0", features = ["v2_38"] }

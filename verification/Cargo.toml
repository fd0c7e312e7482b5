[package]
name = "voice_vibe_local"
version = "0.1.0"
edition = "2021"
publish = false

[dependencies]
rusqlite = "=0.41.1"
chrono = "=0.4.45"
uuid = { version = "=1.29.0", features = ["v4"] }
serde = { version = "=1.0.229", features = ["derive"] }
serde_json = "=1.0.154"
dirs = "=7.0.0"
keyring = "=4.2.0"
log = "=0.4.35"
anyhow = "=1.0.104"
lazy_static = "=1.5.1"
docx-rs = "*"

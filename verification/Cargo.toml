[package]
name = "foundry"
version = "0.1.0"
edition = "2021"
publish = false

[dependencies]
log = "0.4"
regex = "1"
serde = { version = "1", features = ["derive"] }
specta = "1"
tauri = { version = "2", default-features = false }
tokio = { version = "1", default-features = false, features = ["rt", "rt-multi-thread", "time"] }

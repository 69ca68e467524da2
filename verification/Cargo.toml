[package]
name = "adventuria_timer"
version = "0.1.0"
edition = "2021"
publish = false

[dependencies]
global-hotkey = "=0.9.0"
serde = { version = "=1.0.229", features = ["derive"] }
serde_json = "=1.0.154"
chrono = "*"
iced = { version = "*", default-features = false, features = ["tiny-skia", "tokio"] }
tray-icon = "*"
reqwest = { version = "*", default-features = false, features = ["json", "rustls-tls"] }
tokio = { version = "*", features = ["time"] }

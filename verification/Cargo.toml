[package]
name = "vnt_app"
version = "0.1.0"
edition = "2021"
publish = false

[dependencies]
uuid = { version = "1", features = ["v4"] }
machine-uid = "*"
anyhow = "1"
log = "0.4"
serde = { version = "1", features = ["derive"] }
serde_json = "1"
toml = "*"
socket2 = "*"
tokio = { version = "1", features = ["net", "rt", "sync", "macros"] }
tokio-util = { version = "*", features = ["codec"] }
parking_lot = "*"
quinn = { version = "*", default-features = false, features = ["runtime-tokio", "rustls-ring"] }
bytes = "1"
futures = { version = "*", default-features = false, features = ["std"] }
windows-sys = { version = "*", features = ["Win32_Foundation", "Win32_Security", "Win32_System_Threading", "Win32_UI_Shell", "Win32_UI_WindowsAndMessaging"] }
tauri = { version = "2", default-features = false }

[package]
name = "handy"
version = "0.1.0"
edition = "2021"
publish = false

[dependencies]
ferrous-opencc = "=0.4.0"
log = "=0.4.35"
serde_json = "=1.0.154"
windows = { version = "0.61.3", features = ["Win32_Foundation", "Win32_UI_WindowsAndMessaging"] }

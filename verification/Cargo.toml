[package]
name = "pump_control"
version = "0.1.5"
edition = "2021"
publish = false

[dependencies]
serde = { version = "1", features = ["derive"] }
serde_json = "1"
crossbeam-channel = "0.5"
parking_lot = "0.12"
dirs = "5"
raw-window-handle = "0.6"
wry = "0.45"
gtk = "0.18"
windows-sys = { version = "0.59", features = ["Win32_Foundation", "Win32_UI_Input_KeyboardAndMouse"] }

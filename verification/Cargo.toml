[package]
name = "mavis_lib"
version = "0.1.0"
edition = "2021"
publish = false

[dependencies]
anyhow = "=1.0.104"
opencv = "=0.101.1"
winapi = { version = "0.3", features = ["minwindef", "winuser"] }
windows = { version = "=0.62.2", features = ["Win32_Foundation", "Win32_UI_Input_KeyboardAndMouse"] }

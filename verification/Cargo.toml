[package]
name = "embedded_window"
version = "0.1.0"
edition = "2021"
publish = false

[dependencies]
anyhow = "1"
log = "0.4"
raw-window-handle = "0.6"
windows = { version = "0.52", features = ["Win32_Foundation", "Win32_Graphics_Gdi", "Win32_System_Com", "Win32_System_Ole", "Win32_UI_HiDpi", "Win32_UI_WindowsAndMessaging"] }

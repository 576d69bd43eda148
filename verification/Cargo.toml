[package]
name = "winpump"
version = "0.1.0"
edition = "2021"
publish = false

[dependencies]
pollster = "=1.0.1"
raw-window-handle = "=0.6.2"
wgpu = "=30.0.1"
windows = { version = "=0.58.0", features = ["Win32_Foundation", "Win32_Graphics_Gdi", "Win32_System_LibraryLoader", "Win32_UI_Input_KeyboardAndMouse", "Win32_UI_WindowsAndMessaging"] }

[package]
name = "illuminator"
version = "0.1.0"
edition = "2021"
publish = false

[dependencies]
num-traits = "0.2"
anyhow = "1"
windows = { version = "0.48", features = ["Win32_Foundation", "Win32_System_LibraryLoader", "Win32_UI_Input_KeyboardAndMouse", "Win32_UI_WindowsAndMessaging", "Win32_Graphics_Gdi"] }

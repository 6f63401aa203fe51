[package]
name = "rail"
version = "0.1.0"
edition = "2021"
publish = false

[dependencies]
ash = "0.37"
num = "0.4"
cgmath = "0.18"
tobj = "4"
image = { version = "0.24", default-features = false, features = ["png", "jpeg"] }
memoffset = "0.9"
windows = { version = "0.52", features = ["Win32_Foundation", "Win32_System_LibraryLoader", "Win32_UI_WindowsAndMessaging", "Win32_Graphics_Gdi"] }

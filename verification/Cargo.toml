[package]
name = "vulkan_quad"
version = "0.1.0"
edition = "2021"
publish = false

[dependencies]
ash = "0.38"
png = "0.17"
libm = "0.2"
windows = { version = "0.58", features = ["Win32_Foundation", "Win32_Graphics_Gdi", "Win32_System_Console", "Win32_UI_WindowsAndMessaging"] }

[package]
name = "piscatio"
version = "0.1.0"
edition = "2021"
publish = false

[dependencies]
minhook = "*"
serde = { version = "1", features = ["derive"] }
toml = "*"
windows = { version = "0.62", features = ["Win32_Foundation", "Win32_Graphics_Direct3D9", "Win32_Graphics_Gdi", "Win32_Media", "Win32_System_ClrHosting", "Win32_System_Com", "Win32_System_Diagnostics_Debug", "Win32_System_Kernel", "Win32_System_LibraryLoader", "Win32_System_Ole", "Win32_System_SystemInformation", "Win32_System_Threading", "Win32_System_Variant", "Win32_UI_Input_KeyboardAndMouse", "Win32_UI_WindowsAndMessaging"] }

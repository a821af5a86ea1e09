[package]
name = "nebulabun"
version = "0.1.0"
edition = "2021"
publish = false

[dependencies]
webview2-com = "=0.35.0"
windows = { version = "=0.59.0", features = ["Win32_Foundation", "Win32_Globalization", "Win32_Graphics_Gdi", "Win32_System_Com", "Win32_System_LibraryLoader", "Win32_System_Ole", "Win32_System_Variant", "Win32_System_WinRT", "Win32_UI_WindowsAndMessaging"] }

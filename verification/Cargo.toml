[package]
name = "jvm_bridge"
version = "0.1.0"
edition = "2021"
publish = false

[dependencies]
jni = "0.21"
windows = { version = "0.48", features = ["Win32_Foundation", "Win32_System_Console", "Win32_System_LibraryLoader", "Win32_System_SystemServices", "Win32_UI_WindowsAndMessaging"] }

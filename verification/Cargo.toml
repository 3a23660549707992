[package]
name = "windows_volume_mixer"
version = "0.1.0"
edition = "2021"
publish = false

[dependencies]
sysinfo = { version = "0.29", default-features = false }
windows = { version = "0.48", features = ["implement", "Win32_Foundation", "Win32_Media_Audio", "Win32_System_Com", "Win32_System_Com_StructuredStorage", "Win32_Media_KernelStreaming", "Win32_UI_Shell_PropertiesSystem"] }

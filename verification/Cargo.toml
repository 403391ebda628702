[package]
name = "ets2_spotify_core"
version = "0.1.0"
edition = "2021"
publish = false

[dependencies]
anyhow = "=1.0.104"
dirs = "=7.0.0"
image = { version = "=0.25.10", default-features = false, features = ["png", "jpeg"] }
reqwest = { version = "=0.12.28", default-features = false, features = ["rustls-tls"] }
scs-sdk-telemetry = "=1.2.0"
serde = { version = "=1.0.229", features = ["derive"] }
serde_json = "=1.0.154"
tokio = { version = "=1.54.1", features = ["rt-multi-thread", "macros", "sync"] }
windows = { version = "=0.60.0", features = ["Foundation", "Foundation_Collections", "Media_Control", "Storage_Streams", "Win32_Foundation", "Win32_UI_Shell", "Win32_UI_WindowsAndMessaging", "Win32_System_WinRT", "Win32_Media_Audio", "Win32_System_Com", "Win32_Devices_FunctionDiscovery", "Win32_System_Threading", "Win32_UI_Shell_PropertiesSystem", "Win32_System_Com_StructuredStorage", "Win32_System_Variant"] }

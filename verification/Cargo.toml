[package]
name = "sbz-switch"
version = "4.1.0"
edition = "2021"
publish = false

[dependencies]
clap = { version = "=3.2.25", features = ["cargo"] }
futures = "=0.3.34"
indexmap = "=1.9.3"
serde = { version = "=1.0.229", features = ["derive"] }
serde_derive = "=1.0.229"
serde_json = "=1.0.154"
serde_yaml = "=0.8.26"
toml = "=0.5.11"
tracing = "=0.1.44"
tracing-subscriber = { version = "=0.3.23", features = ["env-filter"] }
windows = { version = "=0.43.0", features = ["implement", "interface", "Win32_Foundation", "Win32_Media_Audio", "Win32_Media_Audio_Endpoints", "Win32_Security", "Win32_System_Com", "Win32_System_Com_StructuredStorage", "Win32_System_Diagnostics_Debug", "Win32_System_Memory", "Win32_System_Threading", "Win32_System_WindowsProgramming", "Win32_UI_Shell_PropertiesSystem"] }

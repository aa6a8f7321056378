[package]
name = "language_provider"
version = "0.1.0"
edition = "2021"
publish = false

[dependencies]
anyhow = "=1.0.104"
async-trait = "=0.1.92"
tokio = { version = "=1.53.2", features = ["rt", "rt-multi-thread", "sync"] }
tracing = "=0.1.44"
windows = { version = "=0.52.0", features = ["Win32_Foundation", "Win32_Globalization", "Win32_Graphics_Gdi", "Win32_System_SystemServices", "Win32_Devices_HumanInterfaceDevice", "Win32_UI_Input", "Win32_UI_Input_KeyboardAndMouse", "Win32_UI_TextServices", "Win32_UI_WindowsAndMessaging"] }

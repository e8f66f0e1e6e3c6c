[package]
name = "island_core"
version = "0.1.0"
edition = "2021"
publish = false

[dependencies]
base64 = "=0.22.1"
urlencoding = "=2.1.3"
serde = { version = "1", features = ["derive"] }
serde_json = "1"
ureq = { version = "=2.12.1", features = ["json"] }
rusqlite = { version = "*", features = ["bundled"] }
wmi = "*"
ddc-winapi = "*"
windows = { version = "=0.59.0", features = ["Win32_Foundation", "Win32_System_Power", "Win32_Media_Audio", "Win32_Media_Audio_Endpoints", "Win32_System_Com", "Win32_System_DataExchange", "Win32_System_Memory", "Win32_UI_Accessibility", "Win32_System_Threading", "Win32_UI_WindowsAndMessaging", "Win32_UI_Input_KeyboardAndMouse", "Win32_System_LibraryLoader", "Win32_UI_Shell", "Win32_Graphics_Dwm", "Win32_System_Registry", "Win32_UI_Controls", "Media_Control", "Foundation", "Foundation_Collections", "Storage_Streams", "Devices_Radios", "ApplicationModel", "UI_Notifications", "UI_Notifications_Management"] }

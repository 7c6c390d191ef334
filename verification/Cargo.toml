[package]
name = "lazy_eye"
version = "0.1.0"
edition = "2021"
publish = false

[dependencies]
clokwerk = "=0.4.0"
tray-item = "=0.7.1"
windows = { version = "=0.43.0", features = ["Data_Xml_Dom", "Foundation", "UI_Notifications", "Win32_Foundation", "Win32_Storage_EnhancedStorage", "Win32_System_Com", "Win32_System_Com_StructuredStorage", "Win32_System_Registry", "Win32_UI_Shell", "Win32_UI_Shell_PropertiesSystem"] }

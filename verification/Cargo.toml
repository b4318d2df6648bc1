[package]
name = "eng_on_esc"
version = "0.4.0"
edition = "2021"
publish = false

[dependencies]
windows = { version = "=0.58.0", features = ["Win32_Foundation", "Win32_System_LibraryLoader", "Win32_System_Registry", "Win32_UI_Input_KeyboardAndMouse", "Win32_UI_Shell", "Win32_UI_WindowsAndMessaging"] }
rdev = { version = "=0.5.3", features = ["unstable_grab"] }
tray-icon = "=0.19.3"
tao = "=0.30.8"
core-foundation = "=0.10.1"

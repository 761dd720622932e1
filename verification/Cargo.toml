[package]
name = "lolipop"
version = "0.1.0"
edition = "2021"
publish = false

[dependencies]
libc = "0.2"
windows-numerics = "0.2"

[dependencies.windows]
version = "0.61"
features = [
    "Foundation",
    "UI",
    "UI_Composition",
    "UI_Composition_Desktop",
    "Win32_Foundation",
    "Win32_Graphics_Gdi",
    "Win32_System_Com",
    "Win32_System_LibraryLoader",
    "Win32_System_WinRT",
    "Win32_System_WinRT_Composition",
    "Win32_UI_WindowsAndMessaging",
]

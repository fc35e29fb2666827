[package]
name = "junction"
version = "1.2.0"
edition = "2021"
publish = false

[dependencies]
scopeguard = "1"
windows-sys = { version = "0.52", features = ["Win32_Foundation", "Win32_Security", "Win32_Storage_FileSystem", "Win32_System_IO", "Win32_System_Ioctl", "Win32_System_SystemServices", "Win32_System_Threading"] }

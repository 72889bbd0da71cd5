[package]
name = "windows-kernel-rs"
version = "0.1.0"
edition = "2021"
publish = false

[dependencies]
log = "=0.4.35"
windows-sys = { version = "=0.59.0", features = ["Wdk_Foundation", "Wdk_Storage_FileSystem", "Wdk_Storage_FileSystem_Minifilters", "Wdk_System_SystemServices", "Wdk_System_Threading", "Win32_Foundation", "Win32_Security", "Win32_Storage_InstallableFileSystems", "Win32_System_Diagnostics_Debug", "Win32_System_IO", "Win32_System_Ioctl", "Win32_System_Kernel", "Win32_System_Power", "Win32_System_WindowsProgramming"] }

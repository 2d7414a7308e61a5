[package]
name = "servicerestarter"
version = "0.1.0"
edition = "2021"
publish = false

[dependencies]
bitflags = "=2.13.2"
chrono = "=0.4.45"
log = "=0.4.34"
once_cell = "=1.21.4"
windows = { version = "=0.48.0", features = [
    "Win32_Foundation",
    "Win32_Security",
    "Win32_Storage_FileSystem",
    "Win32_System_Environment",
    "Win32_System_Registry",
    "Win32_System_Services",
    "Win32_System_SystemServices",
] }

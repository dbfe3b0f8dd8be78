[package]
name = "tokio_iocp"
version = "0.1.0"
edition = "2021"
publish = false

[dependencies]
windows-sys = { version = "0.48", features = [
    "Win32_Foundation",
    "Win32_Storage_FileSystem",
    "Win32_System_IO",
    "Win32_System_Pipes",
    "Win32_System_SystemServices",
    "Win32_Networking_WinSock",
] }
tokio = { version = "1", features = ["rt", "net", "time"] }
once_cell = "1"
widestring = "1"
aligned-array = "1"

[package]
name = "echo_dvc"
version = "0.1.0"
edition = "2021"
publish = false

[dependencies]
windows-core = "0.61"
windows = { version = "0.61", features = ["Win32_Foundation", "Win32_Security", "Win32_Storage_FileSystem", "Win32_System_Com", "Win32_System_Console", "Win32_System_IO", "Win32_System_Ole", "Win32_System_RemoteDesktop", "Win32_System_Threading"] }
winreg = "0.55"
clap = { version = "4", features = ["derive"] }
log = "0.4"
simplelog = "0.12"

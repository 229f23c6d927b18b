[package]
name = "libtxc"
version = "0.2.0"
edition = "2021"
publish = false

[dependencies]
windows-sys = { version = "0.52", features = ["Win32_Foundation", "Win32_System_Diagnostics_Debug", "Win32_System_LibraryLoader"] }
winapi = { version = "0.3", features = ["winsock2"] }

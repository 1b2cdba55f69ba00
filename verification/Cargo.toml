[package]
name = "mmap_core"
version = "0.1.0"
edition = "2021"
publish = false

[dependencies]
cfg-if = "1"
libc = "0.2"
windows-sys = { version = "*", features = ["Win32_Foundation", "Win32_System_Memory", "Win32_Storage_FileSystem"] }

[package]
name = "erfps2"
version = "0.1.0"
edition = "2021"
publish = false

[dependencies]
portable-atomic = "=1.15.0"
toml = "=0.9.12"
serde = "=1.0.229"
log = "=0.4.34"
eyre = "=0.6.14"
glam = "=0.34.1"
eldenring = "=0.14.0"
fromsoftware-shared = "=0.14.0"
libhotpatch = "=1.2.0"
winhook = "=0.1.2"
windows = { version = "=0.61.3", features = ["Win32_Foundation", "Win32_System_LibraryLoader", "Win32_System_Memory", "Win32_System_SystemServices"] }

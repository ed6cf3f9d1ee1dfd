[package]
name = "lokinit"
version = "0.1.0"
edition = "2021"
publish = false

[dependencies]
libc = "=0.2.191"
ndk-sys = "=0.2.2"
skia-safe = { version = "=0.153.3", features = ["gl"] }
winapi = { version = "=0.3.9", features = ["hidusage", "libloaderapi", "minwindef", "ntdef", "shellscalingapi", "winbase", "windef", "wingdi", "winuser"] }

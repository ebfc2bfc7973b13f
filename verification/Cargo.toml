[package]
name = "pixel_gui"
version = "0.1.0"
edition = "2021"
publish = false

[dependencies]
fontdue = "*"
winapi = { version = "0.3", features = ["libloaderapi", "minwindef", "ntdef", "winbase", "windef", "windowsx", "wingdi", "winuser"] }

[package]
name = "desktop_work_area"
version = "0.1.0"
edition = "2021"
publish = false

[dependencies]
winapi = { version = "0.3", features = ["errhandlingapi", "libloaderapi", "minwindef", "windef", "winbase", "wingdi", "winnt", "winuser"] }

[package]
name = "radial_overlay"
version = "0.1.0"
edition = "2021"
publish = false

[dependencies]
ash = "0.37"
winapi = { version = "0.3", features = ["winuser", "windef", "minwindef", "libloaderapi", "errhandlingapi", "wingdi"] }

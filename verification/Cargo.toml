[package]
name = "reent_guard"
version = "0.1.0"
edition = "2021"
publish = false

[dependencies]
win-win = "*"
winapi = { version = "=0.3.9", features = ["winuser", "windef", "minwindef", "libloaderapi"] }
wio = "=0.2.2"

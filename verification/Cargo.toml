[package]
name = "taupy_window"
version = "0.1.0"
edition = "2021"
publish = false

[dependencies]
clap = { version = "4", features = ["derive"] }
tiny_http = "0.12"
winapi = { version = "0.3", features = ["debugapi", "processenv", "winbase"] }
wry = "0.24"

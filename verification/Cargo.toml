[package]
name = "window_metrics"
version = "0.1.0"
edition = "2021"
publish = false

[dependencies]
winapi = { version = "=0.3.9", features = ["errhandlingapi", "libloaderapi", "minwindef", "winbase", "windef", "winnt", "winuser"] }

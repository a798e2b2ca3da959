[package]
name = "magic_dot"
version = "0.1.0"
edition = "2021"
publish = false

[dependencies]
tauri = { version = "=2.12.5", default-features = false, features = ["wry"] }
winapi = { version = "=0.3.9", features = ["handleapi", "processthreadsapi", "psapi", "winnt", "winuser"] }

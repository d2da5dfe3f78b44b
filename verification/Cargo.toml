[package]
name = "sidecar_supervisor"
version = "0.1.0"
edition = "2021"
publish = false

[dependencies]
libc = "0.2"
tauri = { version = "2", default-features = false, features = ["wry"] }

[package]
name = "pocket_sql_ui"
version = "0.1.0"
edition = "2021"
publish = false

[dependencies]
tauri = { version = "=2.12.5", default-features = false, features = ["wry"] }
tauri-plugin-http = { version = "2", default-features = false }

[package]
name = "envirotrace_shell"
version = "0.1.0"
edition = "2021"
publish = false

[dependencies]
log = "=0.4.34"
tauri = { version = "=2.12.5", default-features = false }
tauri-plugin-global-shortcut = { version = "2", default-features = false }

[package]
name = "save_shell"
version = "0.1.0"
edition = "2021"
publish = false

[dependencies]
log = "0.4"

[package.metadata.unbuilt]
crates = ["tauri", "tauri-plugin-dialog", "tauri-plugin-log"]

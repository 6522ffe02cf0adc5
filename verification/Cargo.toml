[package]
name = "serial_console"
version = "0.1.0"
edition = "2021"
publish = false

[dependencies]
log = "0.4"
serde = { version = "1", features = ["derive"] }
serialport = { version = "4", default-features = false }
tauri = { version = "2", default-features = false }
tauri-plugin-log = "2"
tokio = { version = "1", features = ["time"] }

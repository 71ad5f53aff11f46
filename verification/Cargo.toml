[package]
name = "nanotrans"
version = "0.1.0"
edition = "2021"
publish = false

[dependencies]
global-hotkey = "*"
crossbeam-channel = "*"
serde = { version = "*", features = ["derive"] }
serde_json = "*"
dirs = "*"

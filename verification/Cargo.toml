[package]
name = "defender_monitor"
version = "0.1.0"
edition = "2021"
publish = false

[dependencies]
serde = { version = "*", features = ["derive"] }
tray-item = "*"
wmi = "*"

[package]
name = "glowfx"
version = "0.1.0"
edition = "2021"
publish = false

[dependencies]
chrono = "0.4"
serde = { version = "1", features = ["derive"] }
zbus = "5"
ctrlc = "3"
cpal = "0.15"
winreg = "*"
wmi = "*"

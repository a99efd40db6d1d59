[package]
name = "wheel_speed"
version = "0.1.0"
edition = "2021"
publish = false

[dependencies]
rppal = "*"
serde_json = "*"
signal-hook = "*"

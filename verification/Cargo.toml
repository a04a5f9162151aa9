[package]
name = "is_it_dark"
version = "0.1.0"
edition = "2021"
publish = false

[dependencies]
chrono = "*"
cfg-if = "*"
winreg = "*"

[package]
name = "crashwatch"
version = "0.1.0"
edition = "2021"
publish = false

[dependencies]
chrono = "0.4"
encoding_rs = "0.8"
sysinfo = "*"
msgbox = "*"

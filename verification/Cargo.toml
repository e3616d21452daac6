[package]
name = "tun_core"
version = "0.1.0"
edition = "2021"
publish = false

[dependencies]
blocking = "*"
libc = "*"
libloading = "*"
log = "*"
mac_address = "*"
tokio = { version = "*", features = ["net"] }
winreg = "*"

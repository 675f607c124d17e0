[package]
name = "hubpower"
version = "0.1.0"
edition = "2021"
publish = false

[dependencies]
usb-ids = "*"
nusb = "*"
tokio = { version = "*", features = ["macros", "rt-multi-thread"] }
inquire = "*"
env_logger = "*"
log = "*"
eyre = "*"

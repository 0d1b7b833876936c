[package]
name = "lpmbox"
version = "0.1.0"
edition = "2021"
publish = false

[dependencies]
adb_client = { version = "=3.2.3", default-features = false, features = ["usb"] }
dirs = "=7.0.0"
nusb = "=0.2.9"
pollster = "=1.0.1"
rsa = "=0.9.10"
serde = { version = "=1.0.229", features = ["derive"] }
ureq = "=2.12.1"
zip = "=9.2.2"

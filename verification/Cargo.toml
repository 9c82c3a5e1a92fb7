[package]
name = "autoclicker"
version = "0.1.0"
edition = "2021"
publish = false

[dependencies]
sanitizer = "=0.1.7"
rdev = "=0.5.3"
device_query = "=1.1.3"

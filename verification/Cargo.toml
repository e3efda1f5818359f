[package]
name = "wayshell"
version = "0.1.0"
edition = "2021"
publish = false

[dependencies]
anyhow = "1"
log = "0.4"
memmap = "0.7"
tempfile = "3"
wayland-client = "0.28"
wayland-protocols = { version = "0.28", features = ["client"] }

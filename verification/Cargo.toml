[package]
name = "scap"
version = "0.1.0"
edition = "2021"
publish = false

[dependencies]
x11rb = { version = "0.13", features = ["shm"] }
libc = "0.2"
pipewire = "0.8"
dbus = "0.9"
libpulse-binding = "2"
libpulse-simple-binding = "2"
pyo3 = { version = "0.25", features = ["extension-module"] }
numpy = "0.25"
futures = "0.3"
cocoa = "0.26"
objc = "0.2"
cidre = "*"
core-graphics-helmer-fork = "*"

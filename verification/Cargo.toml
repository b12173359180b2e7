[package]
name = "autoclicker"
version = "0.1.0"
edition = "2021"
publish = false

[dependencies]
clap = { version = "4", features = ["derive"] }
evdev = "*"
wayland-client = "*"
wayland-protocols = { version = "*", features = ["client"] }
wayland-protocols-wlr = { version = "*", features = ["client"] }

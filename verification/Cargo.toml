[package]
name = "halley_session"
version = "0.1.0"
edition = "2021"
publish = false

[dependencies]
calloop = "0.14"
libc = "0.2"
smithay = { version = "0.7", default-features = false, features = ["wayland_frontend"] }
zbus = "5"

[package]
name = "wayland_submitter"
version = "0.1.0"
edition = "2021"
publish = false

[dependencies]
wayland-client = "=0.29.5"
wayland-protocols = { version = "=0.29.5", features = ["client", "unstable_protocols"] }

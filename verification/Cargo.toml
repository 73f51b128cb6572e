[package]
name = "twbar_core"
version = "0.1.0"
edition = "2021"
publish = false

[dependencies]
async-broadcast = "=0.7.2"
async-std = { version = "=1.13.2", features = ["unstable"] }
serde = { version = "=1.0.229", features = ["derive"] }
serde_json = "=1.0.151"
wayland-client = "=0.31.15"
wayland-protocols = { version = "=0.32.13", features = ["client", "staging"] }
wayland-protocols-wlr = { version = "=0.3.12", features = ["client"] }

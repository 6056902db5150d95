[package]
name = "night_kitchen"
version = "0.1.0"
edition = "2021"
publish = false

[dependencies]
anyhow = "=1.0.104"
chrono = "=0.4.45"
dbus = { version = "=0.9.12", features = ["vendored"] }
nix = { version = "=0.31.3", features = ["time", "ioctl", "feature"] }
signal-hook = "=0.4.5"

[package]
name = "waywin"
version = "0.1.0"
edition = "2021"
publish = false

[dependencies]
calloop = "*"
calloop-wayland-source = "*"
log = "*"
raw-window-handle = "*"
smol_str = "*"
wayland-client = "*"
wayland-protocols = { version = "*", features = ["client", "staging", "unstable"] }
xkbcommon = "*"

[package]
name = "parslay"
version = "0.1.0"
edition = "2021"
publish = false

[dependencies]
xkbcommon-rs = { version = "=0.1.2", features = ["client"] }
x11rb = { version = "=0.14.0", features = ["render"] }
wayland-client = "=0.31.15"
wayland-protocols = { version = "=0.32.13", features = ["client"] }
nix = { version = "=0.31.3", features = ["mman", "fs", "feature"] }

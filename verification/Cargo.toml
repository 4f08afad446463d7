[package]
name = "minkacap"
version = "0.1.0"
edition = "2021"
publish = false

[dependencies]
png = "=0.18.1"
rustix = { version = "=1.1.6", features = ["fs", "mm"] }
wayland-client = "=0.31.15"
wayland-protocols = { version = "=0.32.13", features = ["client", "staging"] }

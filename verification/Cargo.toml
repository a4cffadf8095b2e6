[package]
name = "mctk"
version = "0.1.0"
edition = "2021"
publish = false

[dependencies]
ahash = "=0.8.12"
anyhow = "=1.0.104"
femtovg = { version = "=0.9.2", default-features = false }
jpeg-decoder = { version = "=0.3.2", default-features = false, features = ["platform_independent"] }
rand = "=0.8.8"
raw-window-handle = "=0.5.2"
serde = { version = "=1.0.229", features = ["derive"] }
smithay-client-toolkit = "=0.18.1"
wayland-client = "=0.31.15"

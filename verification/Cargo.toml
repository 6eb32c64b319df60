[package]
name = "xsay"
version = "0.1.0"
edition = "2021"
publish = false

[dependencies]
toml = "0.8"
serde = { version = "1", features = ["derive"] }
serde_json = "1"
dirs = "5"
log = "0.4"
env_logger = "0.11"
anyhow = "1"
thiserror = "1"
crossbeam-channel = "0.5"
parking_lot = "0.12"
ureq = "2"
arboard = "3"
evdev = "0.13"
eframe = { version = "*", default-features = false, features = ["glow", "x11", "default_fonts"] }
winit = { version = "0.30", default-features = false, features = ["x11", "rwh_06"] }
libc = "0.2"

[package]
name = "w_gfx"
version = "0.1.0"
edition = "2021"
publish = false

[dependencies]
ash = "0.38"
ash-window = "0.13"
log = "0.4"
pretty_env_logger = "0.5"
raw-window-handle = "0.6"
winit = { version = "0.29", default-features = false, features = ["rwh_06", "x11"] }

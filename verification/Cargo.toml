[package]
name = "mintshot"
version = "0.1.0"
edition = "2021"
publish = false

[dependencies]
png = "0.17"
chrono = "0.4"
dirs = "5"
log = "0.4"
env_logger = "0.11"
nix = { version = "0.27", features = ["poll"] }
signal-hook = "0.3"
x11 = { version = "2.21", features = ["xlib", "xinerama"] }
arboard = "3"

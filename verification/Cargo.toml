[package]
name = "g600"
version = "0.1.0"
edition = "2021"
publish = false

[dependencies]
nix = { version = "*", features = ["ioctl"] }
regex = "1"
serde_yaml = "0.9"

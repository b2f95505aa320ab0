[package]
name = "meet4k"
version = "0.1.0"
edition = "2021"
publish = false

[dependencies]
errno = "*"
hex = "*"
hexdump = "*"
nix = { version = "*", features = ["ioctl", "fs"] }

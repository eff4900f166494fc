[package]
name = "serial_errors"
version = "0.1.0"
edition = "2021"
publish = false

[dependencies]
nix = "*"
libudev = "*"

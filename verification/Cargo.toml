[package]
name = "muxed"
version = "0.1.0"
edition = "2021"
publish = false

[dependencies]
libc = "*"
dirs = "*"
rand = "*"
yaml-rust = "*"

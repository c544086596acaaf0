[package]
name = "prs_clip"
version = "0.1.0"
edition = "2021"
publish = false

[dependencies]
base64 = "*"
copypasta-ext = "*"
x11-clipboard = "*"
notify-rust = "*"
libc = "*"
clap = "*"

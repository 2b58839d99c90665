[package]
name = "clicknfocus"
version = "0.1.0"
edition = "2021"
publish = false

[dependencies]
accessibility-sys = "*"
clap = { version = "4", features = ["derive"] }
core-foundation = "0.10"
core-foundation-sys = "0.8"
core-graphics = "0.25"
env_logger = "0.11"
libc = "0.2"
log = "0.4"
objc = "0.2"

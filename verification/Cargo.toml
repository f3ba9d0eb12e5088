[package]
name = "app_ui"
version = "0.1.0"
edition = "2021"
publish = false

[dependencies]
toml = "0.8"
dirs = "5"
libc = "0.2"

[package]
name = "crossterm_cffi"
version = "0.1.0"
edition = "2021"
publish = false

[dependencies]
anyhow = "1"
crossterm = "0.27"
libc = "0.2"
log = "0.4"

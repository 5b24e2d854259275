[package]
name = "cffi_channel"
version = "0.1.0"
edition = "2021"
publish = false

[dependencies]
anyhow = "1"
libc = "0.2"
libloading = "0.8"

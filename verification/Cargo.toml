[package]
name = "lightweight_mmap"
version = "0.1.0"
edition = "2021"
publish = false

[dependencies]
itoa = "1"
libc = "0.2"

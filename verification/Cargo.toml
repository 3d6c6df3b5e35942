[package]
name = "sibyl"
version = "0.6.0"
edition = "2021"
publish = false

[dependencies]
libc = "0.2"

[package]
name = "roc_host"
version = "0.1.0"
edition = "2021"
publish = false

[dependencies]
getrandom = "0.2"
libc = "0.2"

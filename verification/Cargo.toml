[package]
name = "sqlite"
version = "0.1.0"
edition = "2021"
publish = false

[dependencies]
libc = "*"
sqlite3-sys = "*"

[package]
name = "datetime"
version = "0.5.2"
edition = "2021"
publish = false

[dependencies]
iso8601 = "*"
libc = "*"

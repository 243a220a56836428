[package]
name = "seastar"
version = "0.1.0"
edition = "2021"
publish = false

[dependencies]
futures = "0.3"
cxx = "1"
once_cell = "1"
libc = "0.2"

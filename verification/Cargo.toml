[package]
name = "ffi"
version = "0.1.0"
edition = "2021"

[dependencies]
libloading = "0.8"
rand = "0.8"

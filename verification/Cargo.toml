[package]
name = "seekable_compress"
version = "0.1.0"
edition = "2021"
publish = false

[dependencies]
zstd-seekable = "*"
bytes = "*"
futures = "*"
parking_lot = "*"
pin-project-lite = "*"

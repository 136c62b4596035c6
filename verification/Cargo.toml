[package]
name = "crabgrab"
version = "0.1.0"
edition = "2021"
publish = false

[dependencies]
cidre = "*"
futures = "*"
libc = "*"
parking_lot = "*"

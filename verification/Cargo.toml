[package]
name = "bili_sync"
version = "0.1.0"
edition = "2021"
publish = false

[dependencies]
croner = "*"
rand = "*"
chrono = "*"
dirs = "*"

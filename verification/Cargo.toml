[package]
name = "umash"
version = "0.1.0"
edition = "2021"
publish = false

[dependencies]
getrandom = "0.2"
lazy_static = "1"
umash-sys = "*"

[package]
name = "rust65"
version = "0.1.0"
edition = "2021"
publish = false

[dependencies]
config = "*"
spin_sleep = "*"
text_io = "*"

[package]
name = "kestrel"
version = "0.1.0"
edition = "2021"
publish = false

[dependencies]
postcard-cobs = "*"
serialport = { version = "*", default-features = false }

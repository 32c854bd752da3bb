[package]
name = "whisker_reader"
version = "0.1.0"
edition = "2021"
publish = false

[dependencies]
flume = "*"
hex = "*"
serialport = { version = "*", default-features = false }

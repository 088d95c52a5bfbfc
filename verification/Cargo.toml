[package]
name = "gs1"
version = "0.3.0"
edition = "2021"
publish = false

[dependencies]
bitreader = "0.3"
pad = "0.1"
percent-encoding = "2"

[dev-dependencies]
hex = "0.4"

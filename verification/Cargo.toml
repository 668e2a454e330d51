[package]
name = "surface_dial_rs"
version = "0.1.0"
edition = "2021"
publish = false

[dependencies]
flume = "*"
hidapi = "*"

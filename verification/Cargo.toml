[package]
name = "connect_error"
version = "0.1.0"
edition = "2021"
publish = false

[dependencies]
tonic = "*"

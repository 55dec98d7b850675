[package]
name = "activity_streams"
version = "0.1.0"
edition = "2021"
publish = false

[dependencies]
rsa = "*"

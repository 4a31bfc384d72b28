[package]
name = "picogpu"
version = "0.1.0"
edition = "2021"
publish = false

[dependencies]
glow = "=0.18.0"
ash = "=0.38.0"

[package]
name = "mid_to_se"
version = "0.1.0"
edition = "2021"
publish = false

[dependencies]
ghakuf = "*"

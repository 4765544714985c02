[package]
name = "asi_opengl"
version = "0.1.0"
edition = "2021"
publish = false

[dependencies]
dl_api = "*"

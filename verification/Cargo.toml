[package]
name = "gldf_sign"
version = "0.1.0"
edition = "2021"
publish = false

[dependencies]
gldf-rs = "*"
minisign = "*"
zip = "*"

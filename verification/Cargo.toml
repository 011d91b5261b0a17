[package]
name = "glyphic"
version = "0.1.0"
edition = "2021"
publish = false

[dependencies]
urlencoding = "2.1"
wstd = "*"

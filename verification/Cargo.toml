[package]
name = "utf16_char"
version = "0.1.0"
edition = "2021"
publish = false

[dependencies]
ascii = "0.9"

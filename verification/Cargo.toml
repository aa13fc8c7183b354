[package]
name = "pixel_shell"
version = "0.1.0"
edition = "2021"
publish = false

[dependencies]
font8x8 = "*"
minifb = "*"

[package]
name = "rsvg"
version = "0.1.0"
edition = "2021"
publish = false

[dependencies]
cairo-rs = "*"
cast = "0.2"
cssparser = "0.27"
libc = "0.2"
markup5ever = "0.10"
once_cell = "1"
rgb = "0.8"
url = "2"

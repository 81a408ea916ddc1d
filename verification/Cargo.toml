[package]
name = "gl_renderer"
version = "0.1.0"
edition = "2021"
publish = false

[dependencies]
cgmath = "*"
glow = "*"
image = { version = "*", default-features = false }
lyon = "*"

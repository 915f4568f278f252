[package]
name = "rotating_triangle"
version = "0.1.0"
edition = "2021"
publish = false

[dependencies]
glam = "0.24"
glow = "0.11"
glutin = "0.29"

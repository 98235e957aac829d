[package]
name = "zero_width_space"
version = "0.1.0"
edition = "2021"
publish = false

[dependencies]
dlauncher = "*"
gtk = "*"
lazy_static = "*"

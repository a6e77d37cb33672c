[package]
name = "gphoto2"
version = "0.1.0"
edition = "2021"
publish = false

[dependencies]
libgphoto2_sys = "*"
log = "*"

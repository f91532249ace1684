[package]
name = "softrender"
version = "0.1.0"
edition = "2021"
publish = false

[dependencies]
image = "0.24"
tobj = "3"
cgmath = "0.18"

[package]
name = "birblike"
version = "0.1.0"
edition = "2021"
publish = false

[dependencies]
gl = "0.14"
cgmath = "0.18"
glutin = "0.29"
image = "0.24"
rand = "0.8"
specs = "0.20"

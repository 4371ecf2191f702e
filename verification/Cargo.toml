[package]
name = "cglinalg"
version = "0.1.0"
edition = "2021"
publish = false

[dependencies]
approx = "0.5"
num-traits = "0.2"

[package]
name = "mozrunner"
version = "0.1.0"
edition = "2021"
publish = false

[dependencies]
mozprofile = "=0.2.1"

[package]
name = "z3model"
version = "0.1.0"
edition = "2021"
publish = false

[dependencies]
z3-sys = "*"

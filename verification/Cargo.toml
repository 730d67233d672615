[package]
name = "a2lupdate"
version = "0.1.0"
edition = "2021"
publish = false

[dependencies]
a2lfile = "*"
clap = "*"

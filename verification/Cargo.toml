[package]
name = "fs_more"
version = "0.1.0"
edition = "2021"
publish = false

[dependencies]
dunce = "=1.0.5"
heck = "0.5"
humansize = "=2.1.3"
path-slash = "0.2"

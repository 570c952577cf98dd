[package]
name = "colormix"
version = "0.1.0"
edition = "2021"
publish = false

[dependencies]
float-ord = "*"
palette = "=0.7.7"

[package]
name = "svgico"
version = "0.1.0"
edition = "2021"
publish = false

[dependencies]
ico = "=0.3.0"
image = { version = "=0.24.9", default-features = false, features = ["png"] }
resvg = "0.31"
usvg = "0.31"
walkdir = "=2.5.0"

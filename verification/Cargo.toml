[package]
name = "ufofmt"
version = "0.1.0"
edition = "2021"
publish = false

[dependencies]
norad = "*"
walkdir = "*"
rayon = "*"
colored = "*"
structopt = "*"

[dev-dependencies]
fs_extra = "*"
tempdir = "*"

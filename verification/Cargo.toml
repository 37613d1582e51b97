[package]
name = "file_search"
version = "0.1.0"
edition = "2021"
publish = false

[dependencies]
globset = "=0.4.20"
walkdir = "=2.5.0"

[dev-dependencies]
tempfile = "=3.27.0"
symlink = "*"

[package]
name = "bisect"
version = "0.1.0"
edition = "2021"
publish = false

[dependencies]
bisector = "*"
rust-releases = { version = "*", default-features = false }

[package]
name = "hyphenation_load"
version = "0.1.0"
edition = "2021"
publish = false

[dependencies]
bincode = "1"
hyphenation_commons = "0.8"

[package]
name = "translator_backend"
version = "0.1.0"
edition = "2021"
publish = false

[dependencies]
lazy_static = "1"
reqwest = "0.12"

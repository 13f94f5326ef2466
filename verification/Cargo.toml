[package]
name = "gutters"
version = "0.1.0"
edition = "2021"
publish = false

[dependencies]
interprocess = "1"

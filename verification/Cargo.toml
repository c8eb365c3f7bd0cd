[package]
name = "coup"
version = "0.1.0"
edition = "2021"
publish = false

[dependencies]
rand = "=0.9.5"
regex = "=1.12.4"
rustc-serialize = "=0.3.25"

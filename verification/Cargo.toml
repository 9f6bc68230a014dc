[package]
name = "plum_vendor"
version = "0.1.0"
edition = "2021"
publish = false

[dependencies]
cargo_metadata = "*"
eyre = "*"

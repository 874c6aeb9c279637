[package]
name = "ecef2lla"
version = "0.1.0"
edition = "2021"
publish = false

[dependencies]
clap = "2.34"
csv = "0.15"
rustc-serialize = "0.3"

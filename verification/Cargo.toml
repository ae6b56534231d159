[package]
name = "typy_config"
version = "0.1.0"
edition = "2021"
publish = false

[dependencies]
toml = "*"
dirs = "*"
lazy_static = "*"

[package]
name = "tinty_config"
version = "0.1.0"
edition = "2021"
publish = false

[dependencies]
toml = "*"
url = "*"
home = "*"

[dev-dependencies]
tinted-builder = "*"

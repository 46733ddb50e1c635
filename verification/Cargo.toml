[package]
name = "alchemist"
version = "0.1.0"
edition = "2021"
publish = false

[dependencies]
owo-colors = "*"
colored = "*"
toml = "*"

[dev-dependencies]
duct = "*"

[package]
name = "pinboard_config"
version = "0.1.0"
edition = "2021"
publish = false

[dependencies]
alfred = "*"
chrono = "0.4"

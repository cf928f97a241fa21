[package]
name = "settings_manager"
version = "0.1.0"
edition = "2021"
publish = false

[dependencies]
toml = "0.8"
sha1 = "0.10"
hex = "0.4"
chrono = "0.4"

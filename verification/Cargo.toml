[package]
name = "terdo"
version = "0.1.0"
edition = "2021"
publish = false

[dependencies]
crossterm = "0.28"
csv = "1"
dirs = "5"
serde = { version = "1", features = ["derive"] }
toml = "0.8"
unicode-width = "0.2"
uuid = { version = "1", features = ["v4"] }

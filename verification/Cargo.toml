[package]
name = "sous"
version = "0.1.0"
edition = "2021"
publish = false

[dependencies]
serde_yaml = "*"
tera = "*"
serde_json = "*"
clap = { version = "*", features = ["derive"] }

[package]
name = "mouse_config"
version = "0.1.0"
edition = "2021"
publish = false

[dependencies]
regex = "1"
serde = { version = "1", features = ["derive"] }
serde_yaml = "0.8"
serde_regex = "*"
glutin = "0.21"
log = "0.4"

[package]
name = "adhaan_gui"
version = "0.1.0"
edition = "2021"
publish = false

[dependencies]
adhaan = "=0.3.0"
anyhow = "=1.0.104"
jiff = "=0.2.38"
serde = { version = "=1.0.229", features = ["derive"] }
toml = "*"

[package]
name = "sds011"
version = "0.1.0"
edition = "2021"
publish = false

[dependencies]
chrono = { version = "=0.4.45", features = ["serde"] }
clap = "=2.34.0"
csv = "=1.4.0"
serde = { version = "=1.0.229", features = ["derive"] }
serial = "=0.4.0"

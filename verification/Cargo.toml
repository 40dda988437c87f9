[package]
name = "deskclock"
version = "0.1.0"
edition = "2021"
publish = false

[dependencies]
anyhow = "1"
chrono = "0.4"
env_logger = "0.11"
google-calendar3 = "5"
log = "0.4"
tokio = { version = "1", features = ["rt"] }

[package]
name = "memstress"
version = "0.1.0"
edition = "2021"
publish = false

[dependencies]
chrono = { version = "0.4", default-features = false, features = ["clock"] }
env_logger = { version = "0.10", default-features = false }
log = "0.4"

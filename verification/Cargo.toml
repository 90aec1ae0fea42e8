[package]
name = "metrics_backend"
version = "0.1.0"
edition = "2021"
publish = false

[dependencies]
metrics = "0.20"
log = "*"
env_logger = "*"
lazy_static = "*"
rand = "0.8"

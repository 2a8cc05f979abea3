[package]
name = "passctl"
version = "0.1.0"
edition = "2021"
publish = false

[dependencies]
clipboard = "*"
env_logger = "*"

[package]
name = "blub"
version = "0.1.0"
edition = "2021"
publish = false

[dependencies]
cgmath = "0.18"
env_logger = "0.11"
log = "0.4"

[package]
name = "crater_cli"
version = "0.1.0"
edition = "2021"
publish = false

[dependencies]
backtrace = "0.3"
env_logger = "*"
hyper = "0.10"
log = "*"
rustc-serialize = "0.3"

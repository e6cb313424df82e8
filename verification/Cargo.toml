[package]
name = "cargo_watch"
version = "0.1.0"
edition = "2021"
publish = false

[dependencies]
docopt = "1"
notify = "4"
log = "0.4"
env_logger = "0.10"

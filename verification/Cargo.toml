[package]
name = "ubxlib"
version = "0.1.0"
edition = "2021"
publish = false

[dependencies]
chrono = "0.4"
clap = "2"
env_logger = "0.7"
log = "0.4"
rust-ini = "*"
serial = "0.4"

[dev-dependencies]
bincode = "1"
serde = "1"

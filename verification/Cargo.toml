[package]
name = "xunlei"
version = "0.1.0"
edition = "2021"
publish = false

[dependencies]
anyhow = "=1.0.104"
chrono = "=0.4.45"
clap = { version = "=4.6.7", features = ["derive"] }
env_logger = "=0.10.2"
hex = "=0.4.3"
indicatif = "=0.17.11"
libc = "=0.2.191"
log = "=0.4.34"
rand = "=0.8.8"
rouille = { version = "=3.6.2", default-features = false }
rust-embed = "8"
serde = { version = "=1.0.229", features = ["derive"] }
serde_json = "=1.0.154"
signal-hook = "=0.3.18"
ureq = { version = "=2.12.1", default-features = false }

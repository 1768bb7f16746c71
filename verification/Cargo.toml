[package]
name = "alar"
version = "0.1.0"
edition = "2021"
publish = false

[dependencies]
regex = "=1.13.1"
simple-base64 = "=0.23.2"
serde_json = "=1.0.154"
serde = { version = "=1.0.229", features = ["derive"] }
anyhow = "=1.0.104"
log = "=0.4.34"
env_logger = "=0.11.11"
clap = { version = "=4.6.7", features = ["derive", "cargo"] }
reqwest = { version = "=0.12.28", features = ["blocking", "json"] }
chrono = "=0.4.45"
fs_extra = "=1.3.0"
sys-mount = { version = "=3.1.1", default-features = false }

[package]
name = "eloizer"
version = "0.1.0"
edition = "2021"
publish = false

[dependencies]
anyhow = "1"
clap = { version = "4", features = ["derive"] }
colored = "2"
env_logger = "0.11"
indicatif = "0.17"
log = "0.4"
serde = { version = "1", features = ["derive"] }
toml = "0.8"

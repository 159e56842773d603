[package]
name = "gat"
version = "0.2.0"
edition = "2021"
publish = false

[dependencies]
serde = { version = "1.0.210", features = ["derive"] }
serde_json = "1"
serde_yaml = "0.9.27"
log = "0.4"
env_logger = "0.10"
ctrlc = "3.4"
crossterm = "0.28"
ratatui = "0.29"

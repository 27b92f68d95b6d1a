[package]
name = "nwg_dock"
version = "0.1.0"
edition = "2021"
publish = false

[dependencies]
toml = "=1.1.8"
serde = { version = "=1.0.229", features = ["derive"] }
serde_path_to_error = "=0.1.20"
clap = { version = "=4.6.7", features = ["derive"] }
notify-rust = "=4.18.2"
notify = "=8.2.1"
log = "=0.4.35"
env_logger = "=0.11.11"
anyhow = "=1.0.104"

[dev-dependencies]
tempfile = "=3.27.0"

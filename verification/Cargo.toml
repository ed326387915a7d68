[package]
name = "pixiv_exporter"
version = "0.1.0"
edition = "2021"
publish = false

[dependencies]
anyhow = "=1.0.104"
axum = "=0.8.9"
chrono = "=0.4.45"
clap = { version = "=4.6.7", features = ["derive"] }
env_logger = "=0.11.11"
futures-util = "=0.3.34"
log = "=0.4.35"
metrics = "=0.24.6"
metrics-exporter-prometheus = "=0.18.3"
pixiv3-rs = "=0.1.0"
rand = "=0.10.3"
schemars = "=1.2.3"
serde = { version = "=1.0.229", features = ["derive"] }
serde_json = "=1.0.154"
serde_with = { version = "=3.24.0", features = ["schemars_1"] }
soft-cycle = "=0.2.0"
tokio = { version = "=1.54.1", features = ["full"] }

[package]
name = "xray_exporter"
version = "0.1.0"
edition = "2021"
publish = false

[dependencies]
bb8 = "*"
clap = { version = "4", features = ["derive"] }
env_logger = "0.11"
log = "0.4"
prometheus_exporter = "*"
prost = "0.13"
tokio = { version = "1", features = ["rt-multi-thread"] }
tonic = "0.12"

[dev-dependencies]
regex = "1"

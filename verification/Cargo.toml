[package]
name = "rbln_metrics_exporter"
version = "0.1.0"
edition = "2021"
publish = false

[dependencies]
anyhow = "1"
chrono = "0.4"
clap = { version = "4", features = ["derive", "env"] }
env_logger = "*"
log = "0.4"
metrics = "*"
metrics-exporter-prometheus = "*"
prost = "0.13"
tokio = { version = "1", features = ["macros", "rt-multi-thread", "time"] }
tonic = "0.12"

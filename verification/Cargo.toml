[package]
name = "blockfrost_platform"
version = "0.1.0"
edition = "2021"
publish = false

[dependencies]
axum = "=0.8.9"
chrono = "=0.4.45"
deadpool = "=0.13.1"
hex = "=0.4.3"
metrics = "=0.24.6"
metrics-exporter-prometheus = "*"
pallas-codec = "=1.4.0"
pallas-crypto = "=1.4.0"
pallas-network = "=1.4.0"
pallas-traverse = "=1.4.0"
serde = { version = "=1.0.229", features = ["derive"] }
serde_json = "=1.0.151"
tokio = { version = "=1.53.2", features = ["full"] }
tower = { version = "=0.5.3", features = ["util"] }
tower-http = { version = "=0.7.1", features = ["normalize-path"] }

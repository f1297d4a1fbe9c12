[package]
name = "ktx"
version = "0.1.0"
edition = "2021"
publish = false

[dependencies]
chrono = "=0.4.45"
clap = "=4.6.7"
crossterm = { version = "=0.28.1", features = ["event-stream"] }
futures = "=0.3.34"
k8s-openapi = { version = "*", features = ["latest"] }
kube = { version = "=1.1.0", default-features = false, features = ["client", "config", "rustls-tls"] }
ratatui = "=0.29.0"
serde_json = "=1.0.151"
serde_yaml = "=0.9.34"
shellexpand = "=3.1.2"
tokio = { version = "=1.53.2", features = ["full"] }

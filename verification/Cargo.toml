[package]
name = "nexo-plugin-google"
version = "0.3.0"
edition = "2021"
publish = false

[dependencies]
anyhow = "1"
base64 = "=0.22.1"
chrono = "=0.4.45"
clap = { version = "=4.6.7", features = ["derive"] }
dashmap = "=6.2.1"
nexo-broker = "=0.1.6"
nexo-config = "=0.1.10"
nexo-microapp-sdk = { version = "=0.1.20", features = ["plugin"] }
nexo-resilience = "=0.1.4"
once_cell = "1"
rand = "=0.8.8"
reqwest = { version = "=0.12.28", default-features = false, features = ["json", "rustls-tls"] }
rustls = { version = "0.23", default-features = false, features = ["ring", "std", "tls12"] }
serde = { version = "1", features = ["derive"] }
serde_json = "1"
serde_urlencoded = "=0.7.1"
serde_yaml = "0.9"
sha2 = "=0.10.9"
tokio = { version = "1", features = ["full"] }
tracing = "0.1"
tracing-subscriber = { version = "0.3", features = ["env-filter"] }

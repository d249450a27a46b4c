[package]
name = "ttychat"
version = "0.1.0"
edition = "2021"
publish = false

[dependencies]
anyhow = "1"
base64 = "=0.22.1"
chrono = "=0.4.45"
crossterm = { version = "=0.28.1", features = ["event-stream"] }
dirs = "6"
ed25519-dalek = "=2.2.0"
futures = "0.3"
rand = "=0.8.8"
ratatui = "=0.29.0"
rustls = { version = "=0.23.45", default-features = false, features = ["ring", "std", "logging", "tls12"] }
rustls-native-certs = "=0.8.4"
serde = { version = "1", features = ["derive"] }
serde_json = "=1.0.151"
tokio = { version = "1", features = ["full"] }
tokio-rustls = { version = "=0.26.6", default-features = false, features = ["ring", "logging", "tls12"] }
unicode-width = "0.2"
webpki-roots = "=0.26.11"

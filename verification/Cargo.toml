[package]
name = "esticli"
version = "0.1.0"
edition = "2021"
publish = false

[dependencies]
jaq-core = "=2.2.1"
jaq-json = { version = "=1.1.3", features = ["serde_json"] }
jaq-std = "=2.1.2"
serde = { version = "=1.0.229", features = ["derive"] }
serde_json = "=1.0.151"
tokio = { version = "=1.53.2", features = ["rt-multi-thread", "macros", "sync", "time"] }
reqwest = { version = "=0.12.28", default-features = false, features = ["rustls-tls", "gzip", "json"] }
url = "=2.5.8"
thiserror = "=2.0.21"
clap = { version = "=4.6.7", features = ["derive"] }
crossterm = "=0.29.0"
ratatui = "=0.30.2"
tui-input = "=0.15.5"
colorgrad = { version = "=0.9.0", features = ["preset"] }
human_format = "=1.2.1"
chrono = "=0.4.45"
anyhow = "=1.0.104"

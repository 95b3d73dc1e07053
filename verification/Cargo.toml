[package]
name = "geoip_api"
version = "0.1.0"
edition = "2021"
publish = false

[dependencies]
maxminddb = "=0.32.0"
flate2 = "=1.1.10"
chrono = "=0.4.45"
axum = "*"
tokio = { version = "*", features = ["full"] }
reqwest = { version = "*", default-features = false }
serde = { version = "*", features = ["derive"] }
serde_json = "*"
clap = { version = "*", features = ["derive"] }
tracing = "*"
tracing-subscriber = { version = "*", features = ["env-filter"] }

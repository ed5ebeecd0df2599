[package]
name = "cim_network"
version = "0.1.0"
edition = "2021"
publish = false

[dependencies]
uuid = { version = "=1.29.0", features = ["v4", "v7", "serde"] }
serde = { version = "=1.0.229", features = ["derive"] }
serde_json = "=1.0.154"
chrono = { version = "=0.4.45", features = ["serde"] }
thiserror = "=1.0.69"
async-trait = "=0.1.92"
tokio = { version = "=1.54.1", features = ["full"] }
tracing = "=0.1.44"
futures = "=0.3.34"
urlencoding = "=2.1.3"
reqwest = { version = "=0.12.28", default-features = false, features = ["json", "rustls-tls", "cookies"] }
async-nats = "=0.51.0"

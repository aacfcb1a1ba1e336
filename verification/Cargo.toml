[package]
name = "neotalk_edge"
version = "0.1.0"
edition = "2021"
publish = false

[dependencies]
anyhow = "=1.0.104"
async-trait = "=0.1.92"
base64 = "=0.22.1"
chrono = "=0.4.45"
redb = "=2.6.4"
regex = "=1.13.1"
serde = { version = "=1.0.229", features = ["derive"] }
serde_json = "=1.0.154"
thiserror = "1"
tokio = { version = "=1.54.1", features = ["full"] }
tokio-cron-scheduler = "=0.15.1"
tracing = "=0.1.44"
uuid = { version = "=1.29.0", features = ["v4"] }
wasmtime = "=45.0.3"
wat = "=1.263.0"

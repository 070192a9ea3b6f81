[package]
name = "aegis_ai_worker_ingest"
version = "0.1.0"
edition = "2021"
publish = false

[dependencies]
anyhow = "=1.0.104"
base64 = "=0.22.1"
serde = { version = "=1.0.229", features = ["derive"] }
serde_json = "=1.0.154"
tokio = { version = "=1.54.1", features = ["rt-multi-thread", "macros", "sync", "time"] }
clickhouse = { version = "=0.15.3", default-features = false }
reqwest = { version = "=0.12.28", default-features = false, features = ["json", "rustls-tls"] }
rust-s3 = { version = "=0.35.1", default-features = false, features = ["tokio-rustls-tls", "fail-on-err"] }
temporalio-sdk = "*"
temporalio-client = "*"
temporalio-sdk-core = "*"
temporalio-macros = "*"

[package]
name = "scholar_pipeline"
version = "0.1.0"
edition = "2021"
publish = false

[dependencies]
sled = "=0.34.7"
lopdf = "=0.31.0"
anyhow = "=1.0.104"
askama = "=0.12.1"
axum = "=0.7.9"
axum-htmx = "=0.6.0"
query_map = { version = "=0.7.0", features = ["url-query"] }
reqwest = { version = "=0.11.27", default-features = false, features = ["json", "cookies", "rustls-tls"] }
serde = { version = "=1.0.229", features = ["derive"] }
serde_json = "=1.0.154"
tokio = { version = "=1.54.1", features = ["full"] }
tracing = "=0.1.44"
tracing-subscriber = "=0.3.23"

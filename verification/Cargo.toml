[package]
name = "ado_hooks"
version = "0.1.0"
edition = "2021"
publish = false

[dependencies]
serde_json = "=1.0.154"
uuid = { version = "=1.29.0", features = ["serde"] }
chrono = { version = "=0.4.45", features = ["serde"] }
url = { version = "=2.5.8", features = ["serde"] }
serde = { version = "=1.0.229", features = ["derive"] }
anyhow = "=1.0.104"
axum = { version = "=0.8.9", features = ["macros"] }
axum-template = { version = "=3.0.0", features = ["tera"] }
tera = "=1.20.1"
tokio = { version = "=1.54.1", features = ["full"] }
tower-http = { version = "=0.7.1", features = ["fs", "trace"] }
tracing = "=0.1.44"
tracing-subscriber = "=0.3.23"
reqwest = "=0.13.5"
azure_core = "=1.1.0"
azure_identity = "=1.0.0"
rocket = { version = "0.5", features = ["json"] }

[package]
name = "axum_session_api"
version = "0.1.0"
edition = "2021"
publish = false

[dependencies]
argon2rs = "=0.2.5"
axum = "=0.8.9"
axum-extra = { version = "=0.10.3", features = ["cookie-private", "cookie-key-expansion"] }
chrono = "=0.4.45"
dotenv = "=0.15.0"
jsonwebtoken = "=9.3.1"
listenfd = "=1.0.2"
redis = { version = "=1.8.1", features = ["tokio-comp", "connection-manager"] }
serde = { version = "=1.0.229", features = ["derive"] }
serde_json = { version = "=1.0.154", features = ["raw_value"] }
time = "=0.3.55"
tokio = { version = "=1.54.1", features = ["full"] }
tower-http = { version = "=0.6.11", features = ["fs", "cors", "trace"] }
tracing = "=0.1.44"
tracing-subscriber = { version = "=0.3.23", features = ["env-filter"] }
uuid = { version = "=1.29.0", features = ["v4", "serde"] }
validator = { version = "=0.20.0", features = ["derive"] }

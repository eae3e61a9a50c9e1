[package]
name = "hare"
version = "0.1.0"
edition = "2021"
publish = false

[dependencies]
http = "1"
url = "2"
base64 = "0.22"
uuid = { version = "1", features = ["v4"] }
chrono = "0.4"
axum = "0.8"
tokio = { version = "1", features = ["full"] }
tower-http = { version = "0.6", features = ["request-id"] }
tower-layer = "0.3"
tower-service = "0.3"
tracing = "0.1"
tracing-subscriber = { version = "0.3", features = ["env-filter"] }
serde = { version = "1", features = ["derive"] }
serde_json = "1"
sqlx = { version = "0.8", default-features = false, features = ["runtime-tokio", "sqlite", "migrate"] }
thiserror = "2"
valuable = "0.1"

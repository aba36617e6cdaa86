[package]
name = "naroden"
version = "0.1.8"
edition = "2021"
publish = false

[dependencies]
argon2 = { version = "=0.5.3", features = ["std"] }
chrono = "=0.4.45"
axum = "=0.7.9"
tokio = { version = "=1.54.1", features = ["full"] }
tower = { version = "=0.4.13", features = ["timeout", "util"] }
tower-http = { version = "=0.5.2", features = ["cors", "trace", "request-id", "limit", "catch-panic", "util"] }
serde = { version = "=1.0.229", features = ["derive"] }
serde_json = "=1.0.154"
jsonwebtoken = "=9.3.1"
envconfig = "=0.10.0"
tracing = "=0.1.44"
tracing-appender = "=0.2.5"
tracing-subscriber = { version = "=0.3.23", features = ["json"] }
async-trait = "=0.1.92"

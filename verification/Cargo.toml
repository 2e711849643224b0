[package]
name = "otel_service"
version = "0.1.0"
edition = "2021"
publish = false

[dependencies]
axum = "0.7"
opentelemetry = "0.24"
opentelemetry-otlp = { version = "0.17", default-features = false, features = ["http-proto", "reqwest-client", "trace"] }
opentelemetry_sdk = { version = "0.24", features = ["rt-tokio"] }
reqwest = { version = "0.12", default-features = false }
tokio = { version = "1", features = ["full"] }
tracing = "0.1"
tracing-opentelemetry = "0.25"
tracing-subscriber = { version = "0.3", features = ["env-filter"] }

[package]
name = "tracekit"
version = "0.1.0"
edition = "2021"
publish = false

[dependencies]
axum = { version = "0.6", features = ["headers"] }
opentelemetry = "0.21"
opentelemetry_sdk = { version = "0.21", features = ["rt-tokio"] }
opentelemetry-otlp = "0.14"
opentelemetry-http = "0.10"
opentelemetry-semantic-conventions = "0.13"
reqwest = { version = "0.11", default-features = false }
tokio = { version = "1", features = ["full"] }

[package]
name = "cdn_store"
version = "0.1.0"
edition = "2021"
publish = false

[dependencies]
axum = { version = "0.5", features = ["headers", "multipart"] }
dotenv = "0.15"
futures = "0.3"
mime_guess = "2"
serde = { version = "1", features = ["derive"] }
serde_json = "1"
tokio = { version = "1", features = ["full"] }
tower-http = { version = "0.3", features = ["trace"] }
tracing-subscriber = { version = "0.3", features = ["env-filter"] }

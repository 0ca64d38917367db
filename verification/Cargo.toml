[package]
name = "customer-agent"
version = "0.1.0"
edition = "2021"
publish = false

[dependencies]
async-openai = "0.24"
axum = "0.6"
dotenv = "0.15"
redis = "0.27"
serde = { version = "1", features = ["derive"] }
serde_json = "1"
serde_plain = "1"
tokio = { version = "1", features = ["full"] }
tracing = "0.1"
tracing-subscriber = { version = "0.3", features = ["env-filter"] }
uuid = { version = "1", features = ["v4"] }

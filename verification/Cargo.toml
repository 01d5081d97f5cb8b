[package]
name = "api-gateway-worker"
version = "0.1.0"
edition = "2021"
publish = false

[dependencies]
axum = { version = "*", default-features = false, features = ["json", "macros"] }
derive-new = "*"
serde = { version = "1", features = ["derive"] }
tower-service = "0.3"
worker = { version = "*", features = ["http", "axum"] }

[dev-dependencies]
serde_json = "1"

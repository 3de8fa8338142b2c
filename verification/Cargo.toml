[package]
name = "rate_rs"
version = "0.1.0"
edition = "2021"
publish = false

[dependencies]
chrono = { version = "0.4", features = ["serde"] }
dashmap = "5"
serde = { version = "1", features = ["derive"] }
serde_json = "1"
thiserror = "1"
async-trait = "0.1"
redis = { version = "0.24", features = ["tokio-comp"] }
actix-web = "4"
futures = "0.3"
axum = "0.7"

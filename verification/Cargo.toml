[package]
name = "chatyk"
version = "0.1.0"
edition = "2021"
publish = false

[dependencies]
anyhow = "1"
axum = { version = "0.8", features = ["multipart", "ws"] }
axum-extra = { version = "0.10", features = ["typed-header"] }
bcrypt = "*"
chrono = { version = "0.4", features = ["serde"] }
cookie = "0.18"
dashmap = "6"
diesel = { version = "2", features = ["postgres", "r2d2", "chrono"] }
dotenvy = "0.15"
futures = "0.3"
futures-util = "0.3"
jsonwebtoken = "9"
r2d2 = "0.8"
redis = { version = "*", features = ["tokio-comp"] }
serde = { version = "1", features = ["derive"] }
serde_json = "1"
thiserror = "2"
tokio = { version = "1", features = ["full"] }
tokio-stream = { version = "0.1", features = ["sync"] }
tracing = "0.1"
tracing-subscriber = { version = "0.3", features = ["env-filter"] }
uuid = { version = "1", features = ["v7"] }

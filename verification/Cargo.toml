[package]
name = "crm"
version = "0.1.0"
edition = "2021"
publish = false

[dependencies]
chrono = "0.4"
fake = { version = "*", features = ["chrono"] }
rand = "0.9"
uuid = { version = "1", features = ["v4"] }
serde = { version = "1", features = ["derive"] }
serde_yaml = "*"
anyhow = "1"
tokio = { version = "1", features = ["full"] }
tokio-stream = "*"
futures = "*"
tonic = "*"
prost-types = "*"
tracing = "*"
tracing-subscriber = "*"
sqlx = { version = "*", default-features = false, features = ["runtime-tokio", "postgres"] }

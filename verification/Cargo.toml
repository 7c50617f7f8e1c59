[package]
name = "user_service"
version = "0.1.0"
edition = "2021"
publish = false

[dependencies]
validator = "=0.20.0"
uuid = { version = "=1.29.0", features = ["v4"] }
rand = "=0.9.5"
chrono = "=0.4.45"
regex-syntax = "=0.8.11"
serde = { version = "1", features = ["derive"] }
thiserror = "2"
anyhow = "1"
async-trait = "0.1"
tokio = { version = "1", features = ["full"] }
tonic = "=0.12.3"
prost = "=0.13.5"
bytes = "1"
config = { version = "=0.14.1", default-features = false, features = ["yaml"] }
dotenvy = "0.15"
tracing = "0.1"
tracing-subscriber = { version = "0.3", features = ["env-filter"] }
dashmap = "6"
diesel = { version = "~2.2", features = ["r2d2", "chrono"] }
diesel_logger = "=0.4.0"
diesel_migrations = "~2.2"
diesel-oci = "*"

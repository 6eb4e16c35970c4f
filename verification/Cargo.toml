[package]
name = "budgeters_server"
version = "0.1.0"
edition = "2021"
publish = false

[dependencies]
argon2 = "0.4"
async-trait = "0.1"
axum = { version = "0.5", features = ["headers"] }
base64 = "0.13"
chrono = "0.4"
cookie = "0.16"
dotenv = "0.15"
lazy_static = "1.4"
rand = "0.8"
serde = { version = "1", features = ["derive"] }
serde_json = "1"
sqlx = { version = "0.6", default-features = false, features = ["runtime-tokio-rustls", "postgres", "chrono"] }
tokio = { version = "1", features = ["full"] }
tower-http = { version = "0.3", features = ["trace"] }
tracing = "0.1"
tracing-subscriber = { version = "0.3", features = ["env-filter"] }

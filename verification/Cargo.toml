[package]
name = "oxprint_backend"
version = "0.1.0"
edition = "2021"
publish = false

[dependencies]
anyhow = "1"
axum = { version = "0.7", features = ["ws", "macros"] }
chrono = "0.4"
config = { version = "0.14", default-features = false, features = ["toml"] }
dotenvy = "0.15"
mime_guess = "2"
serde = { version = "1", features = ["derive"] }
serde_json = "1"
sqlx = { version = "0.7", default-features = false, features = ["runtime-tokio", "sqlite", "migrate"] }
thiserror = "1"
tokio = { version = "1", features = ["full"] }
tower-http = { version = "0.5", features = ["fs", "cors", "compression-gzip", "trace"] }
tracing = "0.1"
tracing-subscriber = "0.3"

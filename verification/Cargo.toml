[package]
name = "posts_api"
version = "0.1.0"
edition = "2021"
publish = false

[dependencies]
axum = { version = "0.8", features = ["macros"] }
axum-macros = "0.5"
chrono = { version = "0.4", features = ["serde"] }
deadpool-diesel = { version = "0.6", features = ["postgres"] }
diesel = { version = "2.2", features = ["postgres", "uuid"] }
diesel_migrations = "2.2"
dotenvy = "0.15"
serde = { version = "1", features = ["derive"] }
serde_json = "1"
tokio = { version = "1", features = ["full"] }
tracing = "0.1"
tracing-subscriber = { version = "0.3", features = ["env-filter"] }
uuid = { version = "1", features = ["serde", "v4"] }

[package]
name = "weapon_service"
version = "0.1.0"
edition = "2021"
publish = false

[dependencies]
serde_json = "=1.0.151"
uuid = { version = "=1.27.0", features = ["v4", "serde"] }
chrono = { version = "=0.4.45", default-features = false, features = ["clock", "serde"] }
serde = { version = "*", features = ["derive"] }
tokio = { version = "*", features = ["macros", "rt-multi-thread", "net"] }
axum = "*"
reqwest = { version = "*", default-features = false, features = ["json"] }
sqlx = { version = "*", default-features = false, features = ["runtime-tokio", "postgres", "chrono", "uuid", "json"] }
tower-http = { version = "*", features = ["cors", "trace"] }
dotenvy = "*"
tracing = "*"
tracing-subscriber = { version = "*", features = ["env-filter"] }

[package]
name = "link_shortener"
version = "0.1.0"
edition = "2021"
publish = false

[dependencies]
axum = "0.7"
base64 = "0.22"
chrono = { version = "0.4", features = ["serde"] }
dotenvy = "0.15"
rand = "0.8"
serde = { version = "1", features = ["derive"] }
sha3 = "0.10"
sqlx = { version = "0.8", default-features = false, features = ["runtime-tokio", "postgres", "chrono"] }
tokio = { version = "1", features = ["rt-multi-thread", "macros", "net", "time"] }
tokio-cron-scheduler = "0.13"
tower-http = { version = "0.6", features = ["trace", "cors", "compression-gzip"] }
tracing = "0.1"
tracing-subscriber = { version = "0.3", features = ["env-filter"] }
url = "2"

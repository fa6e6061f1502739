[package]
name = "polymarket_sweeper"
version = "0.1.0"
edition = "2021"
publish = false

[dependencies]
chrono = { version = "=0.4.45", features = ["serde"] }
rand = "=0.8.8"
statrs = "=0.16.1"
serde = { version = "=1.0.229", features = ["derive"] }
serde_json = "=1.0.154"
anyhow = "=1.0.104"
tokio = { version = "=1.54.1", features = ["macros", "rt-multi-thread", "sync", "time"] }
async-trait = "=0.1.92"
futures = "=0.3.34"
async-stream = "=0.3.6"
tokio-stream = "=0.1.19"
tracing = "=0.1.44"
tracing-subscriber = { version = "=0.3.23", features = ["env-filter", "fmt"] }
prometheus = { version = "=0.13.4", default-features = false }
axum = "=0.6.20"
clap = { version = "=4.6.7", features = ["derive"] }
dotenvy = "=0.15.7"
config = { version = "=0.13.4", default-features = false, features = ["toml"] }
sqlx = { version = "=0.7.4", default-features = false, features = ["runtime-tokio", "postgres", "chrono", "macros"] }
polars = { version = "=0.36.2", default-features = false, features = ["csv"] }

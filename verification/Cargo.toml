[package]
name = "natebot"
version = "0.1.0"
edition = "2021"
publish = false

[dependencies]
chrono = "0.4"
rand = "*"
htmd = "*"
url = "2"
redis = { version = "*", features = ["tokio-comp", "connection-manager"] }
serde = { version = "1", features = ["derive"] }
serde_json = "1"
tokio = { version = "1", features = ["full"] }
log = "0.4"
thiserror = "2"
dotenvy = "0.15"
sqlx = { version = "0.8", default-features = false, features = ["postgres", "runtime-tokio", "chrono", "derive"] }
reqwest = { version = "0.12", features = ["json"] }
reqwest-middleware = "*"
reqwest-retry = "*"
tokio-cron-scheduler = "*"
serenity = "0.12"
poise = "0.6"

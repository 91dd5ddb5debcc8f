[package]
name = "scraper_bot"
version = "0.1.0"
edition = "2021"
publish = false

[dependencies]
scraper = "=0.20.0"
rss = "=2.1.2"
chrono = "=0.4.45"
url = "=2.5.8"
regex = "=1.13.1"
dashmap = "=6.2.1"
once_cell = "=1.21.4"
argon2 = "=0.5.3"
rand_core = { version = "=0.6.4", features = ["getrandom"] }
uuid = { version = "=1.29.0", features = ["v4"] }
serde = { version = "=1.0.229", features = ["derive"] }
serde_json = "=1.0.154"
toml = "=0.8.23"
anyhow = "=1.0.104"
tokio = { version = "=1.54.1", features = ["rt-multi-thread", "macros", "time", "process", "fs", "net", "sync"] }
axum = "=0.8.9"
tower-http = { version = "=0.6.11", features = ["cors", "fs"] }
reqwest = { version = "=0.11.27", default-features = false, features = ["rustls-tls"] }
sqlx = { version = "=0.8.6", default-features = false, features = ["runtime-tokio", "sqlite", "chrono", "migrate"] }
teloxide = { version = "=0.12.2", default-features = false, features = ["macros", "ctrlc_handler", "rustls"] }
tracing = "=0.1.44"
tracing-subscriber = { version = "=0.3.23", features = ["env-filter"] }
dotenv = "=0.15.0"
futures = "=0.3.34"
takecell = "=0.1.1"

[package]
name = "hackernews_crawler"
version = "0.1.0"
edition = "2021"
publish = false

[dependencies]
anyhow = "1"
async-trait = "0.1"
chrono = "=0.4.45"
clap = { version = "4", features = ["derive"] }
confique = { version = "=0.4.0", features = ["toml"] }
futures = "0.3"
prost = "0.11"
scraper = "=0.12.0"
sqlx = { version = "0.6", default-features = false, features = ["sqlite", "runtime-tokio-rustls", "chrono", "macros", "migrate"] }
strum = { version = "0.24", features = ["derive"] }
thiserror = "1"
tokio = { version = "1", features = ["rt-multi-thread", "macros", "time", "sync"] }
tokio-stream = "0.1"
tonic = "0.8"
tracing = "0.1"
tracing-subscriber = "0.3"
url = "2"
voyager = "=0.2.1"

[package]
name = "fast_scraper"
version = "0.1.0"
edition = "2021"
publish = false

[dependencies]
scraper = "*"
serde_json = "1"
reqwest = { version = "*", default-features = false }
tokio = { version = "*", features = ["rt", "sync", "time"] }
futures = "*"

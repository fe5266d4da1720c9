[package]
name = "scrape_with_rust"
version = "0.1.0"
edition = "2021"
publish = false

[dependencies]
scraper = "*"
reqwest = { version = "*", features = ["gzip"] }
tokio = { version = "*", features = ["rt-multi-thread", "macros"] }
futures = "*"
csv = "*"
serde = { version = "*", features = ["derive"] }

[package]
name = "polymind"
version = "0.1.0"
edition = "2021"
publish = false

[dependencies]
chrono = "=0.4.45"
rss = "=2.1.2"
tokio = { version = "=1.53.2", features = ["rt-multi-thread", "macros", "sync", "time", "signal"] }
tokio-util = "=0.7.19"
reqwest = { version = "=0.13.5", default-features = false, features = ["json"] }
futures = "=0.3.34"
serde = { version = "=1.0.229", features = ["derive"] }
serde_json = "=1.0.151"
scraper = "=0.27.0"

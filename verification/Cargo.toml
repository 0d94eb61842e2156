[package]
name = "webspider"
version = "0.1.0"
edition = "2021"
publish = false

[dependencies]
actix = "0.13"
anyhow = "1"
clap = { version = "4", features = ["cargo"] }
futures-util = "0.3"
hyper = { version = "0.14", features = ["full"] }
hyper-tls = "0.5"
lmdb = "0.8"
scraper = "*"
serde = { version = "1", features = ["derive"] }
serde_json = "1"
tokio = { version = "1", features = ["full"] }

[package]
name = "media_downloader"
version = "0.1.0"
edition = "2021"
publish = false

[dependencies]
m3u8-rs = "=6.0.1"
url = "=2.5.8"
regex = "=1.13.1"
scraper = "=0.27.0"
chrono = "=0.4.45"
tokio = { version = "=1.53.2", features = ["rt-multi-thread", "macros", "sync", "time", "fs", "io-util", "process"] }
tokio-stream = "=0.1.19"
reqwest = { version = "=0.12.28", default-features = false, features = ["rustls-tls", "json"] }
serde = { version = "=1.0.229", features = ["derive"] }
serde_json = "=1.0.151"
parking_lot = "=0.12.5"

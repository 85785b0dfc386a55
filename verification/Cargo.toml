[package]
name = "pageinfo-rs"
version = "0.1.0"
edition = "2021"
publish = false

[dependencies]
clap = { version = "=4.6.7", features = ["derive"] }
dom-content-extraction = "=0.4.5"
futures = "=0.3.34"
futures-util = "=0.3.34"
http = "=1.5.0"
regex = "=1.13.1"
serde = { version = "=1.0.229", features = ["derive"] }
serde_json = "=1.0.154"
spider_chrome = "=2.37.130"
spider_fingerprint = "=2.39.0"
thiserror = "=2.0.21"
tokio = { version = "=1.54.1", features = ["full"] }
toml = "=1.1.8"
url = "=2.5.8"
wreq = "=0.15.3"

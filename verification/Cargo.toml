[package]
name = "rust_scraping"
version = "0.1.0"
edition = "2021"
publish = false

[dependencies]
serde = { version = "=1.0.229", features = ["derive"] }
serde_json = "=1.0.154"
url = "=2.5.8"
scraper = "=0.29.0"
reqwest = { version = "=0.12.28", default-features = false, features = ["rustls-tls"] }
tokio = { version = "=1.54.1", features = ["rt", "rt-multi-thread"] }
rayon = "=1.12.0"
csv = "=1.4.0"
log = "=0.4.34"
env_logger = "=0.11.11"
indicatif = "=0.18.6"
indicatif-log-bridge = "=0.2.3"
openai-api-rs = "=4.1.1"

[package]
name = "rugby_fixtures"
version = "0.1.0"
edition = "2021"
publish = false

[dependencies]
chrono = "=0.4.45"
chrono-tz = "=0.10.4"
scraper = "=0.29.0"
reqwest = { version = "=0.13.5", features = ["blocking"] }
serde = { version = "=1.0.229", features = ["derive"] }
toml = "=1.1.8"
dirs = "=7.0.0"
log = "=0.4.34"
gtk = "*"
appindicator3 = "*"

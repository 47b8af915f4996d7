[package]
name = "rental_scraper"
version = "0.1.0"
edition = "2021"
publish = false

[dependencies]
chrono = "0.4"
config = { version = "0.14", default-features = false, features = ["toml"] }
csv = "1"
regex = "1"
reqwest = { version = "0.12", features = ["blocking", "json"] }
scraper = "*"
serde = { version = "1", features = ["derive"] }
serde_json = "1"

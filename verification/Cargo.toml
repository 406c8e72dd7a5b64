[package]
name = "reqwest_app"
version = "0.1.0"
edition = "2021"
publish = false

[dependencies]
scraper = "=0.27.0"
reqwest = { version = "=0.13.5", default-features = false, features = ["form"] }
tokio = { version = "=1.53.2", features = ["macros", "rt-multi-thread"] }
anyhow = "=1.0.104"
serde = { version = "=1.0.229", features = ["derive"] }
chrono = "=0.4.45"

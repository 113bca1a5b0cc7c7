[package]
name = "market_data"
version = "0.1.0"
edition = "2021"
publish = false

[dependencies]
rusqlite = { version = "*", features = ["bundled"] }
serde = { version = "*", features = ["derive"] }
serde_json = "*"
chrono = "*"
reqwest = { version = "*", default-features = false, features = ["blocking", "json"] }

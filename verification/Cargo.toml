[package]
name = "usage_report"
version = "0.1.0"
edition = "2021"
publish = false

[dependencies]
anyhow = "*"
chrono = "*"
comfy-table = "*"
reqwest = { version = "*", default-features = false, features = ["blocking", "json", "query"] }
serde = { version = "*", features = ["derive"] }
